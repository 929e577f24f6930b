//! Verified decision logic of a desktop "liquid glass" lens: the geometry of
//! the lens and its draw passes, the drag interaction of the lens window, the
//! per-output desktop capture protocol and the message pump.

pub mod capture;
pub mod drag;
pub mod frame;
pub mod geometry;
pub mod layout;
pub mod overlay;
pub mod pump;
pub mod render;
