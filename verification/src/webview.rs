//! The runtime broker: window management, the message taxonomy, and the
//! routing logic between the backend process and the native windows.

pub mod backend_event;
pub mod backend_message;
pub mod effect;
pub mod idmap;
pub mod info;
pub mod serve;
pub mod target;
pub mod webview_action;
pub mod webview_manager;
pub mod window_action;
pub mod window_config;
pub mod window_control;
pub mod window_event;
pub mod window_message;
