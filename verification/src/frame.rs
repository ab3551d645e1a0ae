//! Decoded video frames and the single-slot cell that hands the newest one
//! from the capture side to the render side.

use vstd::prelude::*;

verus! {

/// Bytes that one RGBA pixel takes.
pub const BYTES_PER_PIXEL: usize = 4;

/// Length of the RGBA buffer of a frame of `width` by `height` pixels.
pub open spec fn frame_len(width: nat, height: nat) -> nat {
    width * height * (BYTES_PER_PIXEL as nat)
}

/// The buffer of a frame is at least as long as the frame has pixels.
proof fn lemma_frame_len_grows(width: nat, height: nat)
    ensures
        frame_len(width, height) >= width * height,
{
    assert(width * height * 4 >= width * height) by (nonlinear_arith);
}

/// What a frame is: its size in pixels and its RGBA bytes.
pub struct FrameView {
    pub width: nat,
    pub height: nat,
    pub pixels: Seq<u8>,
}

/// One decoded video frame. Its buffer always holds `width * height * 4` bytes.
pub struct VideoFrame {
    width: usize,
    height: usize,
    pixels: Vec<u8>,
}

impl View for VideoFrame {
    type V = FrameView;

    closed spec fn view(&self) -> FrameView {
        FrameView {
            width: self.width as nat,
            height: self.height as nat,
            pixels: self.pixels@,
        }
    }
}

impl VideoFrame {
    #[verifier::type_invariant]
    spec fn buffer_fits(&self) -> bool {
        self.pixels@.len() == frame_len(self.width as nat, self.height as nat)
    }

    /// A frame of `width` by `height` pixels over `pixels`, if the buffer has
    /// exactly the length that this size asks for; otherwise nothing.
    pub fn new(width: usize, height: usize, pixels: Vec<u8>) -> (frame: Option<VideoFrame>)
        ensures
            frame is Some <==> pixels@.len() == frame_len(width as nat, height as nat),
            frame matches Some(f) ==> f@ == (FrameView {
                width: width as nat,
                height: height as nat,
                pixels: pixels@,
            }),
    {
        let len = pixels.len();
        let area = match width.checked_mul(height) {
            Some(area) => area,
            None => {
                proof {
                    lemma_frame_len_grows(width as nat, height as nat);
                }
                return None;
            },
        };
        let needed = match area.checked_mul(BYTES_PER_PIXEL) {
            Some(needed) => needed,
            None => {
                return None;
            },
        };
        if needed == len {
            Some(VideoFrame { width, height, pixels })
        } else {
            None
        }
    }

    /// Width in pixels.
    pub fn width(&self) -> (w: usize)
        ensures
            w == self@.width,
    {
        self.width
    }

    /// Height in pixels.
    pub fn height(&self) -> (h: usize)
        ensures
            h == self@.height,
    {
        self.height
    }

    /// The RGBA bytes, row by row.
    pub fn pixels(&self) -> (bytes: &Vec<u8>)
        ensures
            bytes@ == self@.pixels,
            bytes@.len() == frame_len(self@.width, self@.height),
    {
        proof {
            use_type_invariant(self);
        }
        &self.pixels
    }
}

/// What a cell holds after `frame` is written to it, whatever it held before.
pub open spec fn written(cell: Option<FrameView>, frame: FrameView) -> Option<FrameView> {
    Some(frame)
}

/// What a cell holds after `frames` have been written to it one by one, first to last.
pub open spec fn written_all(cell: Option<FrameView>, frames: Seq<FrameView>) -> Option<
    FrameView,
>
    decreases frames.len(),
{
    if frames.len() == 0 {
        cell
    } else {
        written(written_all(cell, frames.drop_last()), frames.last())
    }
}

/// After any number of writes, at least one, a cell holds exactly the frame
/// written last: its width, its height and its pixels. No earlier frame and
/// nothing of what the cell held before can be read from it.
pub proof fn lemma_last_write_wins(cell: Option<FrameView>, frames: Seq<FrameView>)
    requires
        frames.len() > 0,
    ensures
        written_all(cell, frames) == Some(frames.last()),
{
}

/// The frame cell: at most one frame, replaced whole by every write.
pub struct FrameCell {
    slot: Option<VideoFrame>,
}

impl View for FrameCell {
    type V = Option<FrameView>;

    closed spec fn view(&self) -> Option<FrameView> {
        match self.slot {
            Some(frame) => Some(frame@),
            None => None,
        }
    }
}

impl FrameCell {
    /// A cell that holds no frame yet.
    pub fn new() -> (cell: FrameCell)
        ensures
            cell@ is None,
    {
        FrameCell { slot: None }
    }

    /// Puts `frame` in the cell in place of whatever it held.
    pub fn write(&mut self, frame: VideoFrame)
        ensures
            final(self)@ == written(old(self)@, frame@),
    {
        self.slot = Some(frame);
    }

    /// Takes one captured sample. `handle_valid` says whether the caller's
    /// handle to the graph that the sample comes from could still be used,
    /// that is, whether that pipeline still runs. Where it runs and `data` is
    /// a whole RGBA buffer for `width` by `height` pixels, the frame replaces
    /// the cell's contents and the result is true. A sample of another
    /// length, and every sample once the pipeline is stopped, leaves the cell
    /// as it is.
    pub fn capture(
        &mut self,
        width: usize,
        height: usize,
        data: Vec<u8>,
        handle_valid: bool,
    ) -> (stored: bool)
        ensures
            stored <==> handle_valid && data@.len() == frame_len(width as nat, height as nat),
            stored ==> final(self)@ == Some(
                FrameView { width: width as nat, height: height as nat, pixels: data@ },
            ),
            !stored ==> final(self)@ == old(self)@,
    {
        if !handle_valid {
            return false;
        }
        match VideoFrame::new(width, height, data) {
            Some(frame) => {
                self.write(frame);
                true
            },
            None => false,
        }
    }

    /// The frame held, if any. The cell keeps it.
    pub fn poll_frame(&self) -> (frame: Option<&VideoFrame>)
        ensures
            frame is Some <==> self@ is Some,
            frame matches Some(f) ==> self@ == Some(f@),
    {
        self.slot.as_ref()
    }
}

} // verus!
