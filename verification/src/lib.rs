//! Verified core of a taskbar system monitor: settings file format, metric
//! histories, tray icon sampling, overlay placement and the decisions of the
//! overlay and settings windows.

pub mod text;
pub mod config;
pub mod metrics;
pub mod window;
pub mod settings;
pub mod tray;
pub mod renderer;
