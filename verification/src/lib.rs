//! Window discovery and validation engine for a desktop capture pipeline.
//!
//! The engine walks the set of top-level windows in desktop order,
//! classifies each as a valid capture candidate, and resolves shell-host
//! windows (windows whose visible content lives in a child window owned by
//! a different process) to their real content window.
//!
//! All reasoning is done against an explicit [`desktop::Desktop`] snapshot:
//! a plain-data picture of the window attributes and ordering that the OS
//! windowing subsystem reports. An (unverified) platform adapter fills such
//! a snapshot from the live window system and hands it to this library.

pub mod desktop;
pub mod graphics;
pub mod monitor_color;
pub mod util;
pub mod validator;
pub mod win_iterator;
