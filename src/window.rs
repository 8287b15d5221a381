use vstd::prelude::*;

use crate::config::PIXEL_RATIO;

verus! {

/// Side of the square window, in world units, before scaling.
pub const WINDOW_BASE_SIDE: u32 = 128;

/// How frames are handed to the display.
#[derive(Clone, Copy, Debug, PartialEq, Eq, Structural)]
pub enum PresentMode {
    /// Waits for vertical sync.
    AutoVsync,
    /// Presents as soon as a frame is ready.
    AutoNoVsync,
}

/// Settings of the window the game is shown in.
#[derive(Clone, Debug)]
pub struct WindowSettings {
    pub title: String,
    /// Width and height of the square window, in world units.
    pub side: u32,
    pub resizable: bool,
    /// Centred on the primary monitor.
    pub centered: bool,
    pub present_mode: PresentMode,
}

/// A square, resizable window titled "Birdy", `WINDOW_BASE_SIDE * PIXEL_RATIO`
/// units wide, centred on the primary monitor and presented without vsync.
pub fn create_window() -> (r: WindowSettings)
    ensures
        r.title@ == "Birdy"@,
        r.side == WINDOW_BASE_SIDE * PIXEL_RATIO,
        r.resizable,
        r.centered,
        r.present_mode == PresentMode::AutoNoVsync,
{
    WindowSettings {
        title: "Birdy".to_owned(),
        side: WINDOW_BASE_SIDE * PIXEL_RATIO as u32,
        resizable: true,
        centered: true,
        present_mode: PresentMode::AutoNoVsync,
    }
}

} // verus!
