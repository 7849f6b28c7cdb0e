//! Stream health monitoring: backend telemetry reduced to scene-switch decisions.
pub mod api_v3;
pub mod restreamer;
pub mod stream_servers;
pub mod switcher;
pub mod text;
