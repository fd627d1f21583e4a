//! Packages a backend executable and its assets into one self-contained
//! binary, and at run time brokers messages between that backend process and
//! any number of native webview windows.
//!
//! The two hard parts are verified here: the trailer-delimited embedded
//! payload format (written by [`base::Base`], read back byte-exactly by
//! [`app::App`]), and the broker's window-management and message-routing
//! logic under [`webview`].

pub mod app;
pub mod base;
pub mod compiler;
pub mod embed_error;
pub mod frames;
pub mod runtime;
pub mod webview;
