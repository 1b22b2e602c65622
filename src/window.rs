//! The shell's one window, as it is created at start-up.
use vstd::prelude::*;

verus! {

/// The label by which the host runtime knows the window.
pub const MAIN_WINDOW_LABEL: &'static str = "main";

pub const MAIN_WINDOW_TITLE: &'static str = "SuttaCentral Express";

/// Initial inner width, in the host's logical units.
pub const MAIN_WINDOW_WIDTH: u32 = 800;

/// Initial inner height, in the host's logical units.
pub const MAIN_WINDOW_HEIGHT: u32 = 600;

pub const MAIN_WINDOW_RESIZABLE: bool = true;

pub const MAIN_WINDOW_FULLSCREEN: bool = false;

/// Whether the zoom keyboard shortcuts are on in the view.
pub const MAIN_WINDOW_ZOOM_HOTKEYS: bool = true;

} // verus!
