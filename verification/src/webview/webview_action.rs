use vstd::prelude::*;

use crate::webview::info::RequestInfo;
use crate::webview::target::Target;
use crate::webview::window_action::WindowAction;
use crate::webview::window_message::WindowMessage;

verus! {

/// The event-loop queue item: every inbound event is wrapped with its source
/// target and funneled through one central routing step.
#[derive(Clone, Debug)]
pub enum WebViewAction {
    Message(Target, i32, WindowMessage),
    Window(Target, WindowAction),
    Request(Target, RequestInfo),
}

} // verus!
