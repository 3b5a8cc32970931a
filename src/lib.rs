//! Decision logic of a desktop application shell: the greeting command, the
//! choice of a window's translucency effect per platform, the startup checks
//! and the tray menu's event dispatch. The host GUI runtime performs the
//! actions that these functions decide.

pub mod greeting;
pub mod text;
pub mod effect;
pub mod window;
pub mod tray;
pub mod startup;
