//! Verified core of a terminal client for a proxy daemon: the application
//! state and its key-driven transitions, the refresh decisions taken on each
//! tick of the event loop, the command-line control mode, the debug log
//! buffer and the persisted preferences.
pub mod text;
pub mod state;
pub mod keys;
pub mod replies;
pub mod refresh;
pub mod render;
pub mod logbuf;
pub mod locale;
pub mod ctl;
