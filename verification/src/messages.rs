use vstd::prelude::*;

verus! {

/// A command sent from the owning (event) thread to the render thread.
///
/// Messages flow in one direction only and are consumed in send order.
/// `Resize` carries the new drawable dimensions in pixels; the sender is
/// responsible for forwarding only strictly positive dimensions (see
/// `resize_message`). `Exit` asks the render thread to terminate its loop.
#[derive(Clone, Copy, Debug, PartialEq, Eq, Structural)]
pub enum ThreadMessage {
    Exit,
    Resize(i32, i32),
}

/// The drawable dimensions, in pixels, that the render loop draws into.
#[derive(Clone, Copy, Debug, PartialEq, Eq, Structural)]
pub struct Viewport {
    pub width: i32,
    pub height: i32,
}

impl Viewport {
    /// A viewport the render loop may be asked to draw into: strictly
    /// positive in both dimensions.
    pub open spec fn is_positive(self) -> bool {
        self.width > 0 && self.height > 0
    }
}

/// Builds the resize message the event thread forwards to the render
/// thread, filtering out the dimensions it must never forward: a zero
/// width or height (reported during minimize) and anything too large to
/// carry as a signed 32-bit pixel count.
pub fn resize_message(width: u32, height: u32) -> (r: Option<ThreadMessage>)
    ensures
        r is Some <==> (0 < width <= i32::MAX as u32 && 0 < height <= i32::MAX as u32),
        r matches Some(m) ==> m == ThreadMessage::Resize(width as i32, height as i32),
        r matches Some(m) ==> (Viewport { width: m->Resize_0, height: m->Resize_1 }).is_positive(),
{
    if 0 < width && width <= i32::MAX as u32 && 0 < height && height <= i32::MAX as u32 {
        Some(ThreadMessage::Resize(width as i32, height as i32))
    } else {
        None
    }
}

} // verus!
