//! Core of a launcher that starts a backend server, learns its port from a
//! one-line handshake, and shows the backend either in a native window or in
//! the user's browser.
//!
//! The crate decides and the host program acts: the host reads the handshake
//! line, reads and writes the persisted record and talks to the window system,
//! and hands the outcomes to the functions of this crate, which say what
//! happens next. The one thing the crate asks of the machine itself is the
//! user's home directory.

pub mod controller;
pub mod decimal;
pub mod handshake;
pub mod mode;
pub mod present;
pub mod store;
