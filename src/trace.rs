//! The control of the colour integrator along one path: how deep a path may
//! bounce, and what ends it. The caller traces the rays and scatters them off
//! materials; this state tells it when to trace again and how the path ends.

use vstd::prelude::*;

verus! {

/// The bounce depth at which a path stops and contributes black.
pub const MAX_DEPTH: u32 = 50;

/// What happened to the last ray that was traced.
#[derive(Clone, Copy, Debug, PartialEq, Eq, Structural)]
pub enum SurfaceEvent {
    /// The ray hit nothing in the scene.
    Missed,
    /// The ray hit a surface whose material absorbed it.
    Absorbed,
    /// The ray hit a surface and its material bounced it on.
    Scattered,
}

/// What the caller is asked to do next.
#[derive(Clone, Copy, Debug, PartialEq, Eq, Structural)]
pub enum PathAction {
    /// Trace the current ray through the scene.
    Trace,
    /// End the path with the sky colour in the current ray's direction,
    /// times the attenuation gathered so far.
    ShadeSky,
    /// End the path with black.
    ShadeBlack,
}

/// The state of one path: its bounce depth and the action it asks for.
pub struct PathView {
    pub depth: u32,
    pub action: PathAction,
}

impl PathView {
    pub open spec fn wf(self) -> bool {
        &&& self.depth <= MAX_DEPTH
        &&& self.action == PathAction::Trace ==> self.depth < MAX_DEPTH
    }

    /// The most rays that the path may still ask to have traced.
    pub open spec fn traces_left(self) -> nat {
        if self.action == PathAction::Trace {
            (MAX_DEPTH - self.depth) as nat
        } else {
            0
        }
    }

    /// The state after the ray asked for was traced with outcome `e`.
    pub open spec fn after(self, e: SurfaceEvent) -> PathView {
        match e {
            SurfaceEvent::Missed => PathView { action: PathAction::ShadeSky, ..self },
            SurfaceEvent::Absorbed => PathView { action: PathAction::ShadeBlack, ..self },
            SurfaceEvent::Scattered => PathView {
                depth: (self.depth + 1) as u32,
                action: if self.depth + 1 < MAX_DEPTH {
                    PathAction::Trace
                } else {
                    PathAction::ShadeBlack
                },
            },
        }
    }
}

/// The bounce control of one camera ray's path.
pub struct PathState {
    depth: u32,
    action: PathAction,
}

impl View for PathState {
    type V = PathView;

    closed spec fn view(&self) -> PathView {
        PathView { depth: self.depth, action: self.action }
    }
}

impl PathState {
    /// A path at depth 0 that asks for its camera ray to be traced.
    pub fn new() -> (p: PathState)
        ensures
            p@.wf(),
            p@.depth == 0,
            p@.action == PathAction::Trace,
            p@.traces_left() == MAX_DEPTH,
    {
        PathState { depth: 0, action: PathAction::Trace }
    }

    /// What the caller is to do next.
    pub fn action(&self) -> (a: PathAction)
        ensures
            a == self@.action,
    {
        self.action
    }

    /// The number of bounces so far.
    pub fn depth(&self) -> (d: u32)
        ensures
            d == self@.depth,
    {
        self.depth
    }

    /// Records the outcome of the ray that was traced. A miss ends the path
    /// with the sky, an absorption with black; a scatter bounces once more,
    /// unless the bounce reaches the depth cap, which ends it with black.
    pub fn record(&mut self, e: SurfaceEvent)
        requires
            old(self)@.wf(),
            old(self)@.action == PathAction::Trace,
        ensures
            final(self)@ == old(self)@.after(e),
            final(self)@.wf(),
            final(self)@.traces_left() < old(self)@.traces_left(),
    {
        match e {
            SurfaceEvent::Missed => {
                self.action = PathAction::ShadeSky;
            },
            SurfaceEvent::Absorbed => {
                self.action = PathAction::ShadeBlack;
            },
            SurfaceEvent::Scattered => {
                self.depth = self.depth + 1;
                self.action = if self.depth < MAX_DEPTH {
                    PathAction::Trace
                } else {
                    PathAction::ShadeBlack
                };
            },
        }
    }
}

} // verus!
