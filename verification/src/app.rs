use vstd::prelude::*;

verus! {

/// The window changes asked for during one frame.
pub struct AppControlView {
    /// The last size asked for, in physical pixels.
    pub size: Option<(u32, u32)>,
    /// The last vsync setting asked for.
    pub vsync: Option<bool>,
    /// The last fullscreen setting asked for (borderless when enabled).
    pub fullscreen: Option<bool>,
    /// Whether a redraw was asked for.
    pub redraw: bool,
}

/// Per-frame handle through which user code asks for window changes.
///
/// Requests are recorded here; the frame loop reads them once the user's
/// update has run and applies them to the window and the surface. Of each
/// kind of request, the last one made in the frame wins.
pub struct AppControl {
    requested_size: Option<(u32, u32)>,
    requested_vsync: Option<bool>,
    requested_fullscreen: Option<bool>,
    redraw_requested: bool,
}

impl View for AppControl {
    type V = AppControlView;

    closed spec fn view(&self) -> AppControlView {
        AppControlView {
            size: self.requested_size,
            vsync: self.requested_vsync,
            fullscreen: self.requested_fullscreen,
            redraw: self.redraw_requested,
        }
    }
}

impl AppControl {
    /// A control with no pending requests.
    pub fn new() -> (r: Self)
        ensures
            r@ == (AppControlView { size: None, vsync: None, fullscreen: None, redraw: false }),
    {
        AppControl {
            requested_size: None,
            requested_vsync: None,
            requested_fullscreen: None,
            redraw_requested: false,
        }
    }

    /// The size requested during this frame, if any (the last request wins).
    pub fn pending_size(&self) -> (r: Option<(u32, u32)>)
        ensures
            r == self@.size,
    {
        self.requested_size
    }

    /// The vsync setting requested during this frame, if any (the last request wins).
    pub fn pending_vsync(&self) -> (r: Option<bool>)
        ensures
            r == self@.vsync,
    {
        self.requested_vsync
    }

    /// The fullscreen setting requested during this frame, if any (the last request wins).
    pub fn pending_fullscreen(&self) -> (r: Option<bool>)
        ensures
            r == self@.fullscreen,
    {
        self.requested_fullscreen
    }

    /// Whether a redraw was requested during this frame.
    pub fn redraw_pending(&self) -> (r: bool)
        ensures
            r == self@.redraw,
    {
        self.redraw_requested
    }

    /// Request the window to redraw its contents on the next frame
    pub fn request_redraw(&mut self)
        ensures
            final(self)@ == (AppControlView { redraw: true, ..old(self)@ }),
    {
        self.redraw_requested = true;
    }

    /// Set the inner size of the window in physical pixels
    pub fn set_size(&mut self, w: u32, h: u32)
        ensures
            final(self)@ == (AppControlView { size: Some((w, h)), ..old(self)@ }),
    {
        self.requested_size = Some((w, h));
    }

    /// Enable or disable borderless fullscreen mode
    pub fn set_fullscreen(&mut self, enabled: bool)
        ensures
            final(self)@ == (AppControlView { fullscreen: Some(enabled), ..old(self)@ }),
    {
        self.requested_fullscreen = Some(enabled);
    }

    /// Enable or disable vertical sync
    /// When enabled, frame presentation is synchronized to the display's refresh
    /// rate, preventing screen tearing
    pub fn set_vsync(&mut self, on: bool)
        ensures
            final(self)@ == (AppControlView { vsync: Some(on), ..old(self)@ }),
    {
        self.requested_vsync = Some(on);
    }
}

} // verus!
