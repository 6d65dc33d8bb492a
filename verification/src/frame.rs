use vstd::prelude::*;

verus! {

/// Something that must be presented once a frame has been rendered into it
/// (a swapchain image); presenting consumes it.
pub trait Presentable {
    fn present(self: Box<Self>);
}

} // verus!
