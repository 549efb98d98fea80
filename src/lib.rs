//! A desktop shell compositor: window stack, animations, overlays and
//! notifications, driven by a frame counter and emitting a display list.
pub mod animations;
pub mod desktop;
pub mod easing;
pub mod graphics;
pub mod keyboard;
pub mod mission_control;
pub mod mouse;
pub mod notifications;
pub mod spotlight;
pub mod window_manager;
