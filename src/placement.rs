use vstd::prelude::*;

verus! {

/// The y coordinate that puts a window of `height` pixels `margin` pixels
/// above the bottom edge of a screen `screen_height` pixels tall, or `None`
/// when the window and margin do not fit on the screen.
pub fn bottom_edge_y(screen_height: u16, margin: u16, height: u16) -> (r: Option<u16>)
    ensures
        r is Some <==> margin as int + height as int <= screen_height as int,
        r matches Some(y) ==> y as int == screen_height as int - margin as int - height as int,
{
    if margin as u32 + height as u32 <= screen_height as u32 {
        Some(screen_height - margin - height)
    } else {
        None
    }
}

} // verus!
