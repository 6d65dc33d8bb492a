use vstd::prelude::*;

verus! {

/// Advances a frame timer by one frame: delta time, frame count and FPS.
/// The frame loop calls it once per frame before the user's update.
pub trait FrameTimerInternal {
    fn update(&mut self);
}

/// The counting part of a frame timer: frames rendered since start, and
/// frames per second, updated once per second.
pub struct FrameCounter {
    frame_count: u32,
    fps: u32,
    frame: u64,
}

/// The mathematical state of a [`FrameCounter`].
pub struct FrameCounterView {
    /// Frames counted since the frames-per-second value was last updated.
    pub frame_count: u32,
    /// Frames per second, as counted over the last full second.
    pub fps: u32,
    /// Total number of frames rendered since start.
    pub frame: u64,
}

impl View for FrameCounter {
    type V = FrameCounterView;

    closed spec fn view(&self) -> FrameCounterView {
        FrameCounterView { frame_count: self.frame_count, fps: self.fps, frame: self.frame }
    }
}

impl FrameCounter {
    /// A counter that has seen no frame.
    pub fn new() -> (r: Self)
        ensures
            r@ == (FrameCounterView { frame_count: 0, fps: 0, frame: 0 }),
    {
        FrameCounter { frame_count: 0, fps: 0, frame: 0 }
    }

    /// Counts one frame. `second_elapsed` says whether the frame time
    /// accumulated since the last FPS update has reached a second; if so, the
    /// frames counted in that time (this one included) become the FPS and
    /// counting starts over.
    pub fn tick(&mut self, second_elapsed: bool)
        requires
            old(self)@.frame_count < u32::MAX,
            old(self)@.frame < u64::MAX,
        ensures
            final(self)@.frame == old(self)@.frame + 1,
            second_elapsed ==> final(self)@.fps == old(self)@.frame_count + 1
                && final(self)@.frame_count == 0,
            !second_elapsed ==> final(self)@.fps == old(self)@.fps
                && final(self)@.frame_count == old(self)@.frame_count + 1,
    {
        self.frame_count = self.frame_count + 1;
        self.frame = self.frame + 1;
        if second_elapsed {
            self.fps = self.frame_count;
            self.frame_count = 0;
        }
    }

    /// Frames per second, updated once per second
    pub fn fps(&self) -> (r: u32)
        ensures
            r == self@.fps,
    {
        self.fps
    }

    /// Total number of frames rendered since start
    pub fn frame(&self) -> (r: u64)
        ensures
            r == self@.frame,
    {
        self.frame
    }

    /// Frames counted since the FPS was last updated
    pub fn frames_since_fps_update(&self) -> (r: u32)
        ensures
            r == self@.frame_count,
    {
        self.frame_count
    }
}

} // verus!
