use vstd::prelude::*;
use crate::index::FontIndex;

verus! {

/// Frames are averaged over windows longer than this many microseconds.
pub const FPS_WINDOW_IN_MICROSECONDS: u128 = 500000;

/// Frames per second over a window of `elapsed` microseconds holding `frames`
/// frames; saturated at `u128::MAX` when the count of frames is too large to
/// scale.
pub open spec fn frames_per_second(frames: int, elapsed: int) -> int {
    if frames * 1_000_000 > u128::MAX {
        u128::MAX as int
    } else {
        frames * 1_000_000 / elapsed
    }
}

/// Counts frames to report how many are shown per second.
#[derive(Debug, Copy, Clone, PartialEq, Eq, Structural)]
pub struct DebugInfo {
    font: FontIndex,
    elapsed_time_in_microseconds: u128,
    frame_displayed: u128,
    last_fps: u128,
    display_fps: bool,
}

impl DebugInfo {
    pub closed spec fn spec_font(&self) -> FontIndex {
        self.font
    }

    pub closed spec fn spec_elapsed(&self) -> u128 {
        self.elapsed_time_in_microseconds
    }

    pub closed spec fn spec_frames(&self) -> u128 {
        self.frame_displayed
    }

    pub closed spec fn spec_last_fps(&self) -> u128 {
        self.last_fps
    }

    pub closed spec fn spec_display_fps(&self) -> bool {
        self.display_fps
    }

    pub fn new(font: FontIndex) -> (r: Self)
        ensures
            r.spec_font() == font,
            r.spec_elapsed() == 0,
            r.spec_frames() == 0,
            r.spec_last_fps() == 0,
            !r.spec_display_fps(),
    {
        Self {
            font,
            elapsed_time_in_microseconds: 0,
            frame_displayed: 0,
            last_fps: 0,
            display_fps: false,
        }
    }

    /// The same counters with the display switched on or off.
    pub fn toggle_fps(&self) -> (r: Self)
        ensures
            r.spec_font() == self.spec_font(),
            r.spec_elapsed() == self.spec_elapsed(),
            r.spec_frames() == self.spec_frames(),
            r.spec_last_fps() == self.spec_last_fps(),
            r.spec_display_fps() == !self.spec_display_fps(),
    {
        Self {
            font: self.font,
            elapsed_time_in_microseconds: self.elapsed_time_in_microseconds,
            frame_displayed: self.frame_displayed,
            last_fps: self.last_fps,
            display_fps: !self.display_fps,
        }
    }

    /// Records one more frame. Once the window has run past
    /// `FPS_WINDOW_IN_MICROSECONDS`, the rate over it is published and the
    /// window restarts (the frame that closes it is not counted); otherwise
    /// the frame and its time are added, saturating.
    pub fn with_another_frame_displayed(&self, elapsed_time_in_microseconds: u128) -> (r: Self)
        ensures
            r.spec_font() == self.spec_font(),
            r.spec_display_fps() == self.spec_display_fps(),
            self.spec_elapsed() > FPS_WINDOW_IN_MICROSECONDS ==> {
                &&& r.spec_elapsed() == 0
                &&& r.spec_frames() == 0
                &&& r.spec_last_fps() == frames_per_second(
                    self.spec_frames() as int,
                    self.spec_elapsed() as int,
                )
            },
            self.spec_elapsed() <= FPS_WINDOW_IN_MICROSECONDS ==> {
                &&& r.spec_elapsed() == vstd::math::min(
                    self.spec_elapsed() + elapsed_time_in_microseconds,
                    u128::MAX as int,
                )
                &&& r.spec_frames() == vstd::math::min(self.spec_frames() + 1, u128::MAX as int)
                &&& r.spec_last_fps() == self.spec_last_fps()
            },
    {
        if self.elapsed_time_in_microseconds > FPS_WINDOW_IN_MICROSECONDS {
            let fps: u128 = if self.frame_displayed > u128::MAX / 1_000_000 {
                u128::MAX
            } else {
                self.frame_displayed * 1_000_000 / self.elapsed_time_in_microseconds
            };
            Self {
                font: self.font,
                elapsed_time_in_microseconds: 0,
                frame_displayed: 0,
                last_fps: fps,
                display_fps: self.display_fps,
            }
        } else {
            Self {
                font: self.font,
                elapsed_time_in_microseconds: self.elapsed_time_in_microseconds.saturating_add(
                    elapsed_time_in_microseconds,
                ),
                frame_displayed: self.frame_displayed.saturating_add(1),
                last_fps: self.last_fps,
                display_fps: self.display_fps,
            }
        }
    }

    pub fn font(&self) -> (r: FontIndex)
        ensures
            r == self.spec_font(),
    {
        self.font
    }

    pub fn last_fps(&self) -> (r: u128)
        ensures
            r == self.spec_last_fps(),
    {
        self.last_fps
    }

    pub fn display_fps(&self) -> (r: bool)
        ensures
            r == self.spec_display_fps(),
    {
        self.display_fps
    }

    /// Whether a rate should be drawn: the display is on and a rate has been
    /// measured.
    pub fn shows_fps(&self) -> (r: bool)
        ensures
            r == (self.spec_display_fps() && self.spec_last_fps() != 0),
    {
        self.display_fps && self.last_fps != 0
    }
}

} // verus!
