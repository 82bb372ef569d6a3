//! Core of a terminal dashboard: a stack of navigable menu panels, a
//! quick-action overlay, an action dispatcher and the event funnel that
//! drives them.
//!
//! Nearly everything here is state-machine logic over plain values;
//! terminal drawing, audio output, Bluetooth and file access live outside
//! the library and talk to it through the types and methods defined here.

pub mod app;
pub mod app_actions;
pub mod audio_player;
pub mod config;
pub mod device;
pub mod duration_label;
pub mod event;
pub mod machine;
pub mod menus;
pub mod nav;
pub mod playlist;
pub mod track;

pub use nav::Direction;
pub use nav::NavigationResult;
