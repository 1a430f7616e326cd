//! The fixed facts of the launcher's window.

use vstd::prelude::*;

verus! {

/// The width of the window in pixels.
pub const WINDOW_WIDTH: u32 = 800;

/// The height of the window in pixels.
pub const WINDOW_HEIGHT: u32 = 600;

/// The number of pixels of the window, which is the length of the buffer
/// that holds the rendered text.
pub fn text_buffer_len() -> (len: usize)
    ensures
        len == WINDOW_WIDTH * WINDOW_HEIGHT,
{
    WINDOW_WIDTH as usize * WINDOW_HEIGHT as usize
}

/// The texture of an image that is its own texture.
pub fn texture_from_image<T>(img: &T) -> (texture: &T)
    ensures
        texture == img,
{
    img
}

} // verus!
