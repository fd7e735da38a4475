//! Locates installed Chromium-family browsers and prepares them for launch.
//!
//! The crate has three cooperating parts: a browser catalog and resolution
//! engine that turn a requested browser identity into a concrete executable
//! path, driven by an explicit snapshot of the host so that every decision
//! is deterministic; a flag builder that maps a launch configuration to the
//! exact, ordered argument vector handed to the browser process; and the
//! string utilities those two are specified against. Spawning, killing and
//! log redirection are process I/O and live with the caller; this crate
//! supplies the paths, flags and decisions they need.

pub mod browser;
pub mod cli;
pub mod finder;
pub mod flags;
pub mod launcher;
pub mod probe;
pub mod strutil;
pub mod utils;

pub use browser::{Browser, BrowserType};
pub use finder::BrowserFinder;
pub use launcher::{Launcher, Options};
