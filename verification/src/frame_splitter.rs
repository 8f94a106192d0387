//! Pacing the video against the clock: which frame is due, and whether a
//! new one has to be pulled from the decoder.
//!
//! The decoder itself is outside. It hands over frames of `width * height`
//! pixels of four bytes each, one after the other, and the splitter keeps
//! the last of them until the clock asks for the next.

use vstd::prelude::*;
use crate::timer::NANOS_PER_MILLI;

verus! {

/// Whether the frame due after `elapsed_millis` milliseconds, at a rate of
/// `numerator / denominator` frames per second, lies behind the first
/// `frame_index` frames: whether `elapsed_millis / 1000 * numerator /
/// denominator` is more than `frame_index`.
pub open spec fn frame_due(
    elapsed_millis: nat,
    numerator: nat,
    denominator: nat,
    frame_index: nat,
) -> bool {
    elapsed_millis * numerator > frame_index * 1000 * denominator
}

/// What a frame splitter is at one moment.
pub struct FrameSplitterState {
    /// The number of frames that were pulled from the decoder.
    pub frame_index: nat,
    /// The frame that was pulled last, if one was.
    pub last_frame: Option<Seq<u8>>,
    /// The width of a frame, in pixels.
    pub width: nat,
    /// The height of a frame, in pixels.
    pub height: nat,
    /// The frame rate, as frames and the seconds that they take.
    pub fps: (u32, u32),
}

impl FrameSplitterState {
    /// Whether a new frame has to be pulled when the clock stands at
    /// `elapsed` nanoseconds: there is none yet, or the frame that is due
    /// lies behind those that were pulled.
    pub open spec fn needs_frame(self, elapsed: u64) -> bool {
        self.last_frame.is_none() || frame_due(
            (elapsed / NANOS_PER_MILLI) as nat,
            self.fps.0 as nat,
            self.fps.1 as nat,
            self.frame_index,
        )
    }

    /// The bytes of one frame: four for each pixel.
    pub open spec fn frame_size(self) -> nat {
        4 * self.width * self.height
    }
}

/// The pacing of the video frames, with the frame that was pulled last.
#[derive(Debug)]
pub struct FrameSplitter {
    frame_index: usize,
    last_frame: Option<Vec<u8>>,
    pub width: usize,
    pub height: usize,
    fps: (u32, u32),
}

impl View for FrameSplitter {
    type V = FrameSplitterState;

    closed spec fn view(&self) -> FrameSplitterState {
        FrameSplitterState {
            frame_index: self.frame_index as nat,
            last_frame: match self.last_frame {
                Some(frame) => Some(frame@),
                None => None,
            },
            width: self.width as nat,
            height: self.height as nat,
            fps: self.fps,
        }
    }
}

impl FrameSplitter {
    /// Makes a splitter for a video of `width` by `height` pixels at `fps.0`
    /// frames in `fps.1` seconds, with no frame pulled yet.
    pub fn new(width: usize, height: usize, fps: (u32, u32)) -> (splitter: FrameSplitter)
        ensures
            splitter@ == (FrameSplitterState {
                frame_index: 0,
                last_frame: None,
                width: width as nat,
                height: height as nat,
                fps,
            }),
    {
        FrameSplitter { frame_index: 0, last_frame: None, width, height, fps }
    }

    /// The bytes of one frame, or nothing where their number does not fit.
    pub fn frame_size(&self) -> (size: Option<usize>)
        ensures
            match size {
                Some(bytes) => bytes == self@.frame_size(),
                None => self@.frame_size() > usize::MAX,
            },
    {
        let pixels = match self.width.checked_mul(self.height) {
            Some(pixels) => pixels,
            None => {
                proof {
                    assert(4 * self.width * self.height >= self.width * self.height)
                        by (nonlinear_arith);
                }
                return None;
            },
        };
        proof {
            assert(4 * self.width * self.height == 4 * (self.width * self.height))
                by (nonlinear_arith);
        }
        pixels.checked_mul(4)
    }

    /// The number of frames that were pulled from the decoder.
    pub fn frame_index(&self) -> (index: usize)
        ensures
            index == self@.frame_index,
    {
        self.frame_index
    }

    /// Whether a new frame has to be pulled when the clock stands at
    /// `elapsed` nanoseconds.
    pub fn needs_frame(&self, elapsed: u64) -> (needed: bool)
        ensures
            needed == self@.needs_frame(elapsed),
    {
        if self.last_frame.is_none() {
            return true;
        }
        let millis = (elapsed / NANOS_PER_MILLI) as u128;
        proof {
            assert(self.frame_index * 1000 * self.fps.1 <= 0xFFFF_FFFF_FFFF_FFFF * 1000
                * 0xFFFF_FFFF) by (nonlinear_arith)
                requires
                    0 <= self.frame_index <= 0xFFFF_FFFF_FFFF_FFFF,
                    0 <= self.fps.1 <= 0xFFFF_FFFF,
            ;
            assert(millis * self.fps.0 <= 0xFFFF_FFFF_FFFF_FFFF * 0xFFFF_FFFF)
                by (nonlinear_arith)
                requires
                    0 <= millis <= 0xFFFF_FFFF_FFFF_FFFF,
                    0 <= self.fps.0 <= 0xFFFF_FFFF,
            ;
            assert(self.frame_index * 1000 >= 0) by (nonlinear_arith);
            assert(self.frame_index * 1000 <= 0xFFFF_FFFF_FFFF_FFFF * 1000) by (nonlinear_arith)
                requires
                    0 <= self.frame_index <= 0xFFFF_FFFF_FFFF_FFFF,
            ;
        }
        let due = millis * self.fps.0 as u128;
        let served = self.frame_index as u128 * 1000 * self.fps.1 as u128;
        due > served
    }

    /// Takes a frame that was pulled from the decoder: it is the last frame
    /// from now on, and one frame more counts as pulled. The count stops at
    /// the largest number that it can hold.
    pub fn store_frame(&mut self, frame: Vec<u8>)
        ensures
            final(self)@ == (FrameSplitterState {
                last_frame: Some(frame@),
                frame_index: if old(self)@.frame_index < usize::MAX {
                    old(self)@.frame_index + 1
                } else {
                    old(self)@.frame_index
                },
                ..old(self)@
            }),
    {
        self.last_frame = Some(frame);
        if self.frame_index < usize::MAX {
            self.frame_index = self.frame_index + 1;
        }
    }

    /// The frame that was pulled last, if one was.
    pub fn current_frame(&self) -> (frame: Option<&Vec<u8>>)
        ensures
            match frame {
                Some(bytes) => self@.last_frame == Some(bytes@),
                None => self@.last_frame.is_none(),
            },
    {
        self.last_frame.as_ref()
    }
}

/// A clock that stands still asks for no second frame, and once a frame is
/// due it stays due as the clock goes on.
pub proof fn lemma_frame_due_ordered(
    earlier: nat,
    later: nat,
    numerator: nat,
    denominator: nat,
    frame_index: nat,
)
    requires
        earlier <= later,
        frame_due(earlier, numerator, denominator, frame_index),
    ensures
        frame_due(later, numerator, denominator, frame_index),
{
    assert(earlier * numerator <= later * numerator) by (nonlinear_arith)
        requires
            earlier <= later,
    ;
}

} // verus!
