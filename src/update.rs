//! The messages that stream a render to its consumer, and the consumer's frame
//! buffer that assembles them into an image.

use vstd::prelude::*;

verus! {

/// One message of a render's update stream.
#[derive(Clone, Copy, Debug, PartialEq, Eq, Structural)]
pub enum RenderUpdate {
    /// A render has begun and will report this many chunks as complete.
    BeginRender { chunks: usize },
    /// The pixel at linear index `index` has the packed colour `value`.
    PutPixel { index: usize, value: u32 },
    /// One chunk of the render has delivered all of its pixels.
    ChunkComplete,
}

/// What a frame buffer holds: its size, its row-major packed pixels, and the
/// progress of the current render.
pub struct FrameView {
    pub width: nat,
    pub height: nat,
    pub pixels: Seq<u32>,
    pub begun: bool,
    pub expected_chunks: nat,
    pub completed_chunks: nat,
}

impl FrameView {
    /// Every frame buffer holds one pixel per position and never counts more
    /// completed chunks than were announced.
    pub open spec fn wf(self) -> bool {
        &&& self.pixels.len() == self.width * self.height
        &&& self.completed_chunks <= self.expected_chunks
    }

    /// Whether the frame takes update `u` into account. A pixel outside the
    /// image, or a completion that no render announced, is ignored.
    pub open spec fn accepts(self, u: RenderUpdate) -> bool {
        match u {
            RenderUpdate::BeginRender { .. } => true,
            RenderUpdate::PutPixel { index, .. } => index < self.pixels.len(),
            RenderUpdate::ChunkComplete => self.begun && self.completed_chunks
                < self.expected_chunks,
        }
    }

    /// The frame after update `u`.
    pub open spec fn after(self, u: RenderUpdate) -> FrameView {
        if !self.accepts(u) {
            self
        } else {
            match u {
                RenderUpdate::BeginRender { chunks } => FrameView {
                    begun: true,
                    expected_chunks: chunks as nat,
                    completed_chunks: 0,
                    ..self
                },
                RenderUpdate::PutPixel { index, value } => FrameView {
                    pixels: self.pixels.update(index as int, value),
                    ..self
                },
                RenderUpdate::ChunkComplete => FrameView {
                    completed_chunks: self.completed_chunks + 1,
                    ..self
                },
            }
        }
    }

    /// A render has begun and every chunk it announced has completed.
    pub open spec fn is_complete(self) -> bool {
        self.begun && self.completed_chunks == self.expected_chunks
    }
}

/// The consumer's side of the update stream: a `width` x `height` image of
/// packed colours that updates are written into, with the count of completed
/// chunks of the current render.
pub struct FrameBuffer {
    width: usize,
    height: usize,
    pixels: Vec<u32>,
    begun: bool,
    expected_chunks: usize,
    completed_chunks: usize,
}

impl View for FrameBuffer {
    type V = FrameView;

    closed spec fn view(&self) -> FrameView {
        FrameView {
            width: self.width as nat,
            height: self.height as nat,
            pixels: self.pixels@,
            begun: self.begun,
            expected_chunks: self.expected_chunks as nat,
            completed_chunks: self.completed_chunks as nat,
        }
    }
}

impl FrameBuffer {
    /// A black image of the given size, with no render begun.
    pub fn new(width: usize, height: usize) -> (f: FrameBuffer)
        requires
            width * height <= usize::MAX,
        ensures
            f@.wf(),
            f@.width == width,
            f@.height == height,
            f@.pixels == Seq::new((width * height) as nat, |i: int| 0u32),
            !f@.begun,
            f@.expected_chunks == 0,
            f@.completed_chunks == 0,
    {
        let n: usize = width * height;
        let mut pixels: Vec<u32> = Vec::with_capacity(n);
        let mut i: usize = 0;
        while i < n
            invariant
                i <= n,
                pixels@ == Seq::new(i as nat, |j: int| 0u32),
            decreases n - i,
        {
            pixels.push(0u32);
            i = i + 1;
        }
        let f = FrameBuffer {
            width,
            height,
            pixels,
            begun: false,
            expected_chunks: 0,
            completed_chunks: 0,
        };
        assert(f@.pixels =~= Seq::new((width * height) as nat, |i: int| 0u32));
        f
    }

    /// Takes one update into account, and says whether it was accepted.
    pub fn apply(&mut self, u: RenderUpdate) -> (accepted: bool)
        requires
            old(self)@.wf(),
        ensures
            accepted == old(self)@.accepts(u),
            final(self)@ == old(self)@.after(u),
            final(self)@.wf(),
    {
        match u {
            RenderUpdate::BeginRender { chunks } => {
                self.begun = true;
                self.expected_chunks = chunks;
                self.completed_chunks = 0;
                true
            },
            RenderUpdate::PutPixel { index, value } => {
                if index < self.pixels.len() {
                    self.pixels.set(index, value);
                    true
                } else {
                    false
                }
            },
            RenderUpdate::ChunkComplete => {
                if self.begun && self.completed_chunks < self.expected_chunks {
                    self.completed_chunks = self.completed_chunks + 1;
                    true
                } else {
                    false
                }
            },
        }
    }

    /// Whether the current render has delivered every chunk it announced.
    pub fn is_complete(&self) -> (r: bool)
        ensures
            r == self@.is_complete(),
    {
        self.begun && self.completed_chunks == self.expected_chunks
    }

    /// The image, row-major, one packed colour per pixel.
    pub fn pixels(&self) -> (p: &Vec<u32>)
        ensures
            p@ == self@.pixels,
    {
        &self.pixels
    }

    pub fn width(&self) -> (w: usize)
        ensures
            w == self@.width,
    {
        self.width
    }

    pub fn height(&self) -> (h: usize)
        ensures
            h == self@.height,
    {
        self.height
    }

    /// The number of chunks that the current render announced.
    pub fn expected_chunks(&self) -> (n: usize)
        ensures
            n == self@.expected_chunks,
    {
        self.expected_chunks
    }

    /// The number of chunks of the current render reported complete so far.
    pub fn completed_chunks(&self) -> (n: usize)
        ensures
            n == self@.completed_chunks,
    {
        self.completed_chunks
    }
}

} // verus!
