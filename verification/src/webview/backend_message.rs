use vstd::prelude::*;

use crate::webview::info::InfoMessage;

verus! {

/// Broker → backend: written as one JSON line on the backend's standard
/// input.  `Ready` is sent once, at event-loop startup, before anything else.
#[derive(Clone, Debug)]
pub enum BackendMessage {
    Ready(String),
    Info(InfoMessage),
    Message { from: i32, data: String },
}

} // verus!
