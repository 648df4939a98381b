//! Off-screen browser compositor and event bridge: the verified core.

pub mod display;
pub mod gl_context;
pub mod ipc;
pub mod keys;
pub mod queue;
pub mod renderer;
pub mod router;
pub mod text;
pub mod types;
pub mod webview;
