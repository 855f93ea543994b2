//! A URI "open-with" resolver: given a URI and an ordered list of configured
//! application rules, decide which registered application should handle it,
//! either automatically (prefix or regular-expression matching) or by handing
//! the URI off to a picker UI.
//!
//! The crate holds the daemon's control plane: the matcher, the resolution
//! cache, the launch-worker command handling, the RPC dispatcher state machine
//! and its wire-format marshalling, and the startup role decision. Transport
//! (D-Bus), the GTK picker surface, configuration parsing and process
//! bootstrapping live outside the library.

pub mod cli;
pub mod config;
pub mod daemon;
pub mod dbus;
pub mod desktop_files;
pub mod strutil;
