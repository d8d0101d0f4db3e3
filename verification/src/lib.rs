//! mizu: the verified core of a fluid terminal system monitor.
//!
//! The library holds the monitor's decisions and data handling: settings and
//! their TOML form, theme palettes, the view state driven by keys, rolling
//! metric histories, counter deltas, panel layout arithmetic and the
//! run-length decoding of the flow animation. Terminal drawing, sampling of
//! the operating system and file access live in the `app` crate.

pub mod animation;
pub mod document;
pub mod layout;
pub mod metrics;
pub mod settings;
pub mod state;
pub mod text;
pub mod theme;
pub mod ui;
