//! The decisions of one render worker on one chunk: which pixel to shade and
//! send next, when to report the chunk complete, and when to give up because
//! the consumer has gone away. The worker's caller does the shading and the
//! sending, and reports back whether each message was delivered.

use vstd::prelude::*;
use crate::schedule::RowChunk;

verus! {

/// Where a worker stands in its chunk.
#[derive(Clone, Copy, Debug, PartialEq, Eq, Structural)]
pub enum WorkerPhase {
    /// Pixels, then the completion message, are still to be sent.
    Shading,
    /// Every pixel and the completion message were delivered.
    Finished,
    /// A message could not be delivered: the rest of the chunk is dropped.
    Abandoned,
}

/// What the worker's caller is asked to do next.
#[derive(Clone, Copy, Debug, PartialEq, Eq, Structural)]
pub enum WorkerAction {
    /// Shade the pixel at this linear index and send it.
    Shade { index: usize },
    /// Send the message that the chunk is complete.
    Complete,
    /// Do nothing more for this chunk.
    Stop,
}

/// A worker's state: the next pixel index to shade, the index after the
/// chunk's last pixel, and its phase.
pub struct WorkerView {
    pub next: usize,
    pub end: usize,
    pub phase: WorkerPhase,
}

impl WorkerView {
    pub open spec fn wf(self) -> bool {
        self.next <= self.end
    }

    /// The action asked for in this state.
    pub open spec fn action(self) -> WorkerAction {
        match self.phase {
            WorkerPhase::Shading => if self.next < self.end {
                WorkerAction::Shade { index: self.next }
            } else {
                WorkerAction::Complete
            },
            _ => WorkerAction::Stop,
        }
    }

    /// The state after the caller reports whether the message of the current
    /// action was delivered.
    pub open spec fn after_report(self, delivered: bool) -> WorkerView {
        match self.phase {
            WorkerPhase::Shading => if !delivered {
                WorkerView { phase: WorkerPhase::Abandoned, ..self }
            } else if self.next < self.end {
                WorkerView { next: (self.next + 1) as usize, ..self }
            } else {
                WorkerView { phase: WorkerPhase::Finished, ..self }
            },
            _ => self,
        }
    }
}

/// The state reached from `v` after the delivery outcomes `outcomes`, in order.
pub open spec fn replay(v: WorkerView, outcomes: Seq<bool>) -> WorkerView
    decreases outcomes.len(),
{
    if outcomes.len() == 0 {
        v
    } else {
        replay(v, outcomes.drop_last()).after_report(outcomes.last())
    }
}

/// The worker of one chunk.
pub struct ChunkWorker {
    next: usize,
    end: usize,
    phase: WorkerPhase,
}

impl View for ChunkWorker {
    type V = WorkerView;

    closed spec fn view(&self) -> WorkerView {
        WorkerView { next: self.next, end: self.end, phase: self.phase }
    }
}

impl ChunkWorker {
    /// A worker about to shade the first pixel of `chunk` in an image `width`
    /// pixels wide.
    pub fn new(chunk: RowChunk, width: usize) -> (w: ChunkWorker)
        requires
            chunk.first_row <= chunk.end_row,
            chunk.end_row * width <= usize::MAX,
        ensures
            w@.wf(),
            w@.next == chunk.first_row * width,
            w@.end == chunk.end_row * width,
            w@.phase == WorkerPhase::Shading,
    {
        let (first, end) = chunk.pixel_span(width);
        ChunkWorker { next: first, end, phase: WorkerPhase::Shading }
    }

    /// What the caller is to do next.
    pub fn action(&self) -> (a: WorkerAction)
        ensures
            a == self@.action(),
    {
        match self.phase {
            WorkerPhase::Shading => if self.next < self.end {
                WorkerAction::Shade { index: self.next }
            } else {
                WorkerAction::Complete
            },
            _ => WorkerAction::Stop,
        }
    }

    /// Records whether the message of the current action was delivered. A
    /// failed delivery abandons the rest of the chunk.
    pub fn report(&mut self, delivered: bool)
        requires
            old(self)@.wf(),
        ensures
            final(self)@ == old(self)@.after_report(delivered),
            final(self)@.wf(),
    {
        if self.phase == WorkerPhase::Shading {
            if !delivered {
                self.phase = WorkerPhase::Abandoned;
            } else if self.next < self.end {
                self.next = self.next + 1;
            } else {
                self.phase = WorkerPhase::Finished;
            }
        }
    }

    /// Whether the worker has stopped, finished or abandoned.
    pub fn is_stopped(&self) -> (r: bool)
        ensures
            r == (self@.phase != WorkerPhase::Shading),
    {
        self.phase != WorkerPhase::Shading
    }
}

/// While every message is delivered, a worker asks for the pixels of its
/// chunk one after another, in index order, then for the completion message,
/// and then stops.
pub proof fn lemma_delivered_run(v: WorkerView, outcomes: Seq<bool>)
    requires
        v.wf(),
        v.phase == WorkerPhase::Shading,
        outcomes.len() <= v.end - v.next + 1,
        forall|i: int| 0 <= i < outcomes.len() ==> #[trigger] outcomes[i],
    ensures
        outcomes.len() <= v.end - v.next ==> replay(v, outcomes) == (WorkerView {
            next: (v.next + outcomes.len()) as usize,
            ..v
        }),
        outcomes.len() < v.end - v.next ==> replay(v, outcomes).action() == (WorkerAction::Shade {
            index: (v.next + outcomes.len()) as usize,
        }),
        outcomes.len() == v.end - v.next ==> replay(v, outcomes).action()
            == WorkerAction::Complete,
        outcomes.len() == v.end - v.next + 1 ==> replay(v, outcomes).phase
            == WorkerPhase::Finished,
        outcomes.len() == v.end - v.next + 1 ==> replay(v, outcomes).action()
            == WorkerAction::Stop,
    decreases outcomes.len(),
{
    if outcomes.len() > 0 {
        let prefix = outcomes.drop_last();
        assert forall|i: int| 0 <= i < prefix.len() implies #[trigger] prefix[i] by {
            assert(prefix[i] == outcomes[i]);
        }
        lemma_delivered_run(v, prefix);
        assert(outcomes.last() == outcomes[outcomes.len() - 1]);
    }
}

/// Once a worker has stopped, finished or abandoned, no later report moves it:
/// it asks for nothing more.
pub proof fn lemma_stop_is_final(v: WorkerView, outcomes: Seq<bool>)
    requires
        v.phase != WorkerPhase::Shading,
    ensures
        replay(v, outcomes) == v,
        replay(v, outcomes).action() == WorkerAction::Stop,
    decreases outcomes.len(),
{
    if outcomes.len() > 0 {
        lemma_stop_is_final(v, outcomes.drop_last());
    }
}

} // verus!
