use vstd::prelude::*;

verus! {

/// The window events the frame loop makes decisions on. Input events go
/// to [`crate::input::Input`] directly.
#[derive(Clone, Copy, Debug, PartialEq, Eq, Structural)]
pub enum LoopEvent {
    CloseRequested,
    RedrawRequested,
    Resized { width: u32, height: u32 },
    Other,
}

/// What the frame loop does with an event.
#[derive(Clone, Copy, Debug, PartialEq, Eq, Structural)]
pub enum LoopAction {
    /// Leave the event loop.
    Exit,
    /// Advance the timer, run the user's frame, end the input frame, and ask
    /// for the next redraw when `request_redraw`.
    RunFrame { request_redraw: bool },
    /// Resize the rendering resources.
    Resize { width: u32, height: u32 },
    /// Nothing to do.
    Nothing,
}

/// The action the frame loop takes for `event`. `has_window` says whether
/// the window exists, `has_app` whether the rendering resource and the
/// handler are both ready, and `continuous` whether the loop polls
/// (continuous redraws) rather than waits for events.
pub fn decide(event: LoopEvent, has_window: bool, has_app: bool, continuous: bool) -> (r: LoopAction)
    ensures
        r == decide_spec(event, has_window, has_app, continuous),
{
    match event {
        LoopEvent::CloseRequested => LoopAction::Exit,
        LoopEvent::RedrawRequested => {
            if has_window && has_app {
                LoopAction::RunFrame { request_redraw: continuous }
            } else {
                LoopAction::Nothing
            }
        },
        LoopEvent::Resized { width, height } => {
            if width == 0 || height == 0 {
                LoopAction::Nothing
            } else if has_app {
                LoopAction::Resize { width, height }
            } else {
                LoopAction::Nothing
            }
        },
        LoopEvent::Other => LoopAction::Nothing,
    }
}

/// Size used for the first surface: a zero width becomes 800 and a zero
/// height 600 (a zero-sized surface is refused by WebGPU).
pub fn initial_surface_size(width: u32, height: u32) -> (r: (u32, u32))
    ensures
        r == (if width == 0 { 800u32 } else { width }, if height == 0 { 600u32 } else { height }),
        r.0 != 0 && r.1 != 0,
{
    (if width == 0 { 800 } else { width }, if height == 0 { 600 } else { height })
}

/// A zero-sized window never reaches the renderer as a resize.
pub proof fn law_no_zero_resize(w: u32, h: u32, has_window: bool, has_app: bool, continuous: bool)
    ensures
        (w == 0 || h == 0) ==> match #[trigger] decide_spec(LoopEvent::Resized { width: w, height: h }, has_window, has_app, continuous) {
            LoopAction::Resize { .. } => false,
            _ => true,
        },
{
}

pub open spec fn decide_spec(event: LoopEvent, has_window: bool, has_app: bool, continuous: bool) -> LoopAction {
    match event {
        LoopEvent::CloseRequested => LoopAction::Exit,
        LoopEvent::RedrawRequested => if has_window && has_app {
            LoopAction::RunFrame { request_redraw: continuous }
        } else {
            LoopAction::Nothing
        },
        LoopEvent::Resized { width, height } => if width != 0 && height != 0 && has_app {
            LoopAction::Resize { width, height }
        } else {
            LoopAction::Nothing
        },
        LoopEvent::Other => LoopAction::Nothing,
    }
}

} // verus!
