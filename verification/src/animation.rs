//! Sprite-sheet animation playback.
//!
//! An `Animation` advances a cursor over a non-empty frame list by
//! accumulated wall-clock time, in whole nanoseconds.  `update` carries the
//! remainder over: every full `frame_duration` in the accumulated time
//! advances the cursor by one step, modulo the period of the current play
//! mode.  Frame selection maps the cursor to a frame index according to the
//! play mode; drawing the selected frame is the embedding renderer's move,
//! via `current_frame`.

use vstd::prelude::*;
use crate::color::Color;
use crate::frame::Frame;

verus! {

/// The direction in which the frame sequence is traversed.
#[derive(Clone, Copy, Debug, Hash, PartialEq, Eq, Structural)]
pub enum PlayMode {
    /// First to last, then wrap around.
    Normal,
    /// Last to first, then wrap around.
    Reversed,
    /// Forth and back, without repeating either end frame.
    PingPong,
}

impl Default for PlayMode {
    fn default() -> (r: Self)
        ensures
            r == PlayMode::Normal,
    {
        PlayMode::Normal
    }
}

/// The number of cursor positions in one playback period: the frame count
/// for `Normal` and `Reversed`, `2 * n - 2` for `PingPong` (at least 1).
pub open spec fn spec_one_period_len(mode: PlayMode, frames_len: int) -> int {
    match mode {
        PlayMode::Normal => frames_len,
        PlayMode::Reversed => frames_len,
        PlayMode::PingPong => if frames_len * 2 - 2 >= 1 {
            frames_len * 2 - 2
        } else {
            1
        },
    }
}

/// The frame shown for a cursor position: the cursor itself for `Normal`,
/// the mirrored cursor for `Reversed`, and for `PingPong` the cursor on
/// the way up and its reflection on the way down.
pub open spec fn spec_frame_index(mode: PlayMode, frames_len: int, current: int) -> int {
    match mode {
        PlayMode::Normal => current,
        PlayMode::Reversed => frames_len - current - 1,
        PlayMode::PingPong => if current < frames_len {
            current
        } else {
            frames_len * 2 - current - 2
        },
    }
}

/// A stateful player over an ordered, non-empty list of frames.
#[derive(Clone, Debug)]
pub struct Animation {
    frame_duration: u64,
    frames: Vec<Frame>,
    play_mode: PlayMode,
    current_index: usize,
    since_last_frame: u64,
    color: Color,
}

impl Animation {
    pub closed spec fn frames_spec(self) -> Seq<Frame> {
        self.frames@
    }

    /// The duration of one frame, in nanoseconds.
    pub closed spec fn frame_duration_spec(self) -> int {
        self.frame_duration as int
    }

    pub closed spec fn play_mode_spec(self) -> PlayMode {
        self.play_mode
    }

    /// The playback cursor; its meaning depends on the play mode.
    pub closed spec fn current_index_spec(self) -> int {
        self.current_index as int
    }

    /// Time accumulated since the cursor last advanced, in nanoseconds.
    pub closed spec fn since_last_frame_spec(self) -> int {
        self.since_last_frame as int
    }

    pub closed spec fn color_spec(self) -> Color {
        self.color
    }

    pub open spec fn one_period_len(self) -> int {
        spec_one_period_len(self.play_mode_spec(), self.frames_spec().len() as int)
    }

    /// The configuration part of the invariant: at least one frame and a
    /// positive frame duration.  The frame count is bounded so that period
    /// arithmetic stays within `usize`.
    pub open spec fn config_wf(self) -> bool {
        &&& 1 <= self.frames_spec().len()
        &&& self.frames_spec().len() * 2 <= usize::MAX
        &&& 1 <= self.frame_duration_spec()
    }

    /// The playback invariant: a well-formed configuration with the cursor
    /// within one period.
    pub open spec fn wf(self) -> bool {
        &&& self.config_wf()
        &&& 0 <= self.current_index_spec() < self.one_period_len()
    }

    /// A fresh animation in `Normal` mode, at the first frame, with a
    /// neutral tint.  `frame_duration` is in nanoseconds.
    pub fn new(frame_duration: u64, frames: Vec<Frame>) -> (r: Animation)
        requires
            1 <= frames@.len(),
            frames@.len() * 2 <= usize::MAX,
            1 <= frame_duration,
        ensures
            r.wf(),
            r.frames_spec() == frames@,
            r.frame_duration_spec() == frame_duration,
            r.play_mode_spec() == PlayMode::Normal,
            r.current_index_spec() == 0,
            r.since_last_frame_spec() == 0,
            r.color_spec() == (Color { red: 255u8, green: 255u8, blue: 255u8, alpha: 255u8 }),
    {
        Animation {
            frame_duration,
            frames,
            play_mode: PlayMode::Normal,
            current_index: 0,
            since_last_frame: 0,
            color: Color::white(),
        }
    }

    /// A fresh animation showing `fps` frames per second: the frame
    /// duration is a second divided by `fps`, rounded down to whole
    /// nanoseconds.
    pub fn by_fps(fps: u32, frames: Vec<Frame>) -> (r: Animation)
        requires
            1 <= fps <= 1_000_000_000,
            1 <= frames@.len(),
            frames@.len() * 2 <= usize::MAX,
        ensures
            r.wf(),
            r.frames_spec() == frames@,
            r.frame_duration_spec() == 1_000_000_000int / fps as int,
            r.play_mode_spec() == PlayMode::Normal,
            r.current_index_spec() == 0,
            r.since_last_frame_spec() == 0,
            r.color_spec() == (Color { red: 255u8, green: 255u8, blue: 255u8, alpha: 255u8 }),
    {
        proof {
            vstd::arithmetic::div_mod::lemma_div_non_zero(1_000_000_000int, fps as int);
        }
        let frame_duration: u64 = 1_000_000_000 / (fps as u64);
        Animation::new(frame_duration, frames)
    }

    /// Rewinds to the first frame and drops any accumulated time.
    pub fn reset(&mut self)
        requires
            old(self).config_wf(),
        ensures
            final(self).wf(),
            final(self).current_index_spec() == 0,
            final(self).since_last_frame_spec() == 0,
            final(self).frames_spec() == old(self).frames_spec(),
            final(self).frame_duration_spec() == old(self).frame_duration_spec(),
            final(self).play_mode_spec() == old(self).play_mode_spec(),
            final(self).color_spec() == old(self).color_spec(),
    {
        self.current_index = 0;
        self.since_last_frame = 0;
    }

    /// The duration of one frame, in nanoseconds.
    pub fn frame_duration(&self) -> (d: u64)
        ensures
            d == self.frame_duration_spec(),
    {
        self.frame_duration
    }

    pub fn set_frame_duration(&mut self, frame_duration: u64)
        requires
            old(self).wf(),
            1 <= frame_duration,
        ensures
            final(self).wf(),
            final(self).frame_duration_spec() == frame_duration,
            final(self).frames_spec() == old(self).frames_spec(),
            final(self).play_mode_spec() == old(self).play_mode_spec(),
            final(self).current_index_spec() == old(self).current_index_spec(),
            final(self).since_last_frame_spec() == old(self).since_last_frame_spec(),
            final(self).color_spec() == old(self).color_spec(),
    {
        self.frame_duration = frame_duration;
    }

    /// Whole frames per second: a second divided by the frame duration,
    /// rounded down.
    pub fn fps(&self) -> (f: u64)
        requires
            self.wf(),
        ensures
            f == 1_000_000_000int / self.frame_duration_spec(),
    {
        1_000_000_000 / self.frame_duration
    }

    pub fn set_fps(&mut self, fps: u32)
        requires
            old(self).wf(),
            1 <= fps <= 1_000_000_000,
        ensures
            final(self).wf(),
            final(self).frame_duration_spec() == 1_000_000_000int / fps as int,
            final(self).frames_spec() == old(self).frames_spec(),
            final(self).play_mode_spec() == old(self).play_mode_spec(),
            final(self).current_index_spec() == old(self).current_index_spec(),
            final(self).since_last_frame_spec() == old(self).since_last_frame_spec(),
            final(self).color_spec() == old(self).color_spec(),
    {
        proof {
            vstd::arithmetic::div_mod::lemma_div_non_zero(1_000_000_000int, fps as int);
        }
        self.frame_duration = 1_000_000_000 / (fps as u64);
    }

    pub fn frames(&self) -> (r: &Vec<Frame>)
        ensures
            r@ == self.frames_spec(),
    {
        &self.frames
    }

    /// Replaces the whole frame list and resets playback, so the cursor
    /// cannot point past the new bounds.
    pub fn set_frames(&mut self, frames: Vec<Frame>)
        requires
            old(self).wf(),
            1 <= frames@.len(),
            frames@.len() * 2 <= usize::MAX,
        ensures
            final(self).wf(),
            final(self).frames_spec() == frames@,
            final(self).current_index_spec() == 0,
            final(self).since_last_frame_spec() == 0,
            final(self).frame_duration_spec() == old(self).frame_duration_spec(),
            final(self).play_mode_spec() == old(self).play_mode_spec(),
            final(self).color_spec() == old(self).color_spec(),
    {
        self.frames = frames;
        self.reset();
    }

    pub fn frames_len(&self) -> (n: usize)
        ensures
            n == self.frames_spec().len(),
    {
        self.frames.len()
    }

    /// The number of cursor positions in one playback period.
    pub fn one_period_frames_len(&self) -> (n: usize)
        requires
            self.wf(),
        ensures
            n == self.one_period_len(),
            1 <= n,
    {
        match self.play_mode {
            PlayMode::Normal => self.frames.len(),
            PlayMode::Reversed => self.frames.len(),
            PlayMode::PingPong => {
                if self.frames.len() >= 2 {
                    self.frames.len() * 2 - 2
                } else {
                    1
                }
            },
        }
    }

    pub fn play_mode(&self) -> (m: PlayMode)
        ensures
            m == self.play_mode_spec(),
    {
        self.play_mode
    }

    /// Changes the traversal direction; a real change resets playback, so
    /// the cursor cannot point past the new period.
    pub fn set_play_mode(&mut self, play_mode: PlayMode)
        requires
            old(self).wf(),
        ensures
            final(self).wf(),
            final(self).play_mode_spec() == play_mode,
            final(self).frames_spec() == old(self).frames_spec(),
            final(self).frame_duration_spec() == old(self).frame_duration_spec(),
            final(self).color_spec() == old(self).color_spec(),
            play_mode == old(self).play_mode_spec() ==> *final(self) == *old(self),
            play_mode != old(self).play_mode_spec() ==> final(self).current_index_spec() == 0
                && final(self).since_last_frame_spec() == 0,
    {
        if self.play_mode != play_mode {
            self.play_mode = play_mode;
            self.reset();
        }
    }

    /// The playback cursor; its meaning depends on the play mode.
    pub fn current_index(&self) -> (i: usize)
        ensures
            i == self.current_index_spec(),
    {
        self.current_index
    }

    /// Moves the cursor to `index`, wrapped into the current period, and
    /// drops any accumulated time.
    pub fn set_current_index(&mut self, index: usize)
        requires
            old(self).wf(),
        ensures
            final(self).wf(),
            final(self).current_index_spec() == index as int % old(self).one_period_len(),
            final(self).since_last_frame_spec() == 0,
            final(self).frames_spec() == old(self).frames_spec(),
            final(self).frame_duration_spec() == old(self).frame_duration_spec(),
            final(self).play_mode_spec() == old(self).play_mode_spec(),
            final(self).color_spec() == old(self).color_spec(),
    {
        let period = self.one_period_frames_len();
        self.current_index = index % period;
        self.since_last_frame = 0;
    }

    /// The index of the visible frame, per the play mode.
    pub fn current_frame_index(&self) -> (i: usize)
        requires
            self.wf(),
        ensures
            i == spec_frame_index(
                self.play_mode_spec(),
                self.frames_spec().len() as int,
                self.current_index_spec(),
            ),
            0 <= i < self.frames_spec().len(),
    {
        match self.play_mode {
            PlayMode::Normal => self.current_index,
            PlayMode::Reversed => self.frames.len() - self.current_index - 1,
            PlayMode::PingPong => {
                if self.current_index < self.frames.len() {
                    self.current_index
                } else {
                    self.frames.len() * 2 - self.current_index - 2
                }
            },
        }
    }

    /// The visible frame itself.
    pub fn current_frame(&self) -> (f: &Frame)
        requires
            self.wf(),
        ensures
            *f == self.frames_spec()[spec_frame_index(
                self.play_mode_spec(),
                self.frames_spec().len() as int,
                self.current_index_spec(),
            )],
    {
        let index = self.current_frame_index();
        &self.frames[index]
    }

    pub fn color(&self) -> (c: Color)
        ensures
            c == self.color_spec(),
    {
        self.color
    }

    pub fn set_color(&mut self, color: Color)
        requires
            old(self).wf(),
        ensures
            final(self).wf(),
            final(self).color_spec() == color,
            final(self).frames_spec() == old(self).frames_spec(),
            final(self).frame_duration_spec() == old(self).frame_duration_spec(),
            final(self).play_mode_spec() == old(self).play_mode_spec(),
            final(self).current_index_spec() == old(self).current_index_spec(),
            final(self).since_last_frame_spec() == old(self).since_last_frame_spec(),
    {
        self.color = color;
    }

    /// Advances playback by `delta_time` nanoseconds.  Every full frame
    /// duration in the accumulated time moves the cursor one step, modulo
    /// the period; the remainder is carried over.
    pub fn update(&mut self, delta_time: u64)
        requires
            old(self).wf(),
            old(self).since_last_frame_spec() + delta_time <= u64::MAX,
        ensures
            final(self).wf(),
            final(self).since_last_frame_spec() == (old(self).since_last_frame_spec()
                + delta_time) % old(self).frame_duration_spec(),
            final(self).current_index_spec() == (old(self).current_index_spec() + (old(
                self,
            ).since_last_frame_spec() + delta_time) / old(self).frame_duration_spec()) % old(
                self,
            ).one_period_len(),
            final(self).frames_spec() == old(self).frames_spec(),
            final(self).frame_duration_spec() == old(self).frame_duration_spec(),
            final(self).play_mode_spec() == old(self).play_mode_spec(),
            final(self).color_spec() == old(self).color_spec(),
    {
        let total: u64 = self.since_last_frame + delta_time;
        let steps: u64 = total / self.frame_duration;
        self.since_last_frame = total % self.frame_duration;
        let period = self.one_period_frames_len();
        let advanced: u128 = (self.current_index as u128 + steps as u128) % (period as u128);
        self.current_index = advanced as usize;
    }
}

} // verus!
