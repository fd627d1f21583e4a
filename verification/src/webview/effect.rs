use vstd::prelude::*;

use crate::webview::backend_message::BackendMessage;
use crate::webview::info::InfoMessage;
use crate::webview::target::Target;
use crate::webview::webview_action::WebViewAction;
use crate::webview::webview_manager::WebViewManager;
use crate::webview::window_config::WindowConfig;
use crate::webview::window_message::WindowMessage;

verus! {

/// One side effect that routing decided on.  The event loop performs them in
/// order: writing a line to the backend, evaluating a script in a window,
/// queueing a follow-up action, manipulating a native window, or shutting
/// the broker down.
#[derive(Clone, Debug)]
pub enum Effect {
    /// Queue a follow-up action on the event loop.
    Queue(WebViewAction),
    /// Serialize and write one line to the backend's standard input.
    ToBackend(BackendMessage),
    /// Serialize and deliver one message to the window with this ID.
    ToWindow(i32, WindowMessage),
    /// Deliver one message to every window in the list, in order.
    Broadcast(Vec<i32>, WindowMessage),
    /// Build a native window and its content host, then register it.
    OpenWindow(WindowConfig),
    /// Make the window visible (its page has signalled "loaded").
    ShowWindow(i32),
    /// Hide the window and drop its native resources.
    CloseNative(i32),
    /// Enter or leave borderless fullscreen.
    SetFullscreen(i32, bool),
    /// Maximize or restore.
    SetMaximized(i32, bool),
    /// Minimize.
    SetMinimized(i32, bool),
    /// Begin a window drag.
    DragWindow(i32),
    /// Forcibly terminate the backend process.
    KillBackend,
    /// Leave the broker's event loop.
    ExitLoop,
}

/// How a routing error is reported: to the originating window when the
/// source is a window (queued, so the failed send itself is routed), else
/// straight to the backend.
pub open spec fn is_error_effects(r: Seq<Effect>, source: Target, text: Seq<char>) -> bool {
    match source {
        Target::Backend => r.len() == 1 && (r[0] matches Effect::ToBackend(
            BackendMessage::Info(InfoMessage::Error(t)),
        ) && t@ == text),
        Target::Window(id) => r.len() == 1 && (r[0] matches Effect::Queue(
            WebViewAction::Message(src, wid, WindowMessage::Info(InfoMessage::Error(t))),
        ) && src == source && wid == id && t@ == text),
    }
}

/// Where a routing error lands: with the originating window when that
/// window is still live, else with the backend — whichever side can still
/// display it.
pub open spec fn is_routed_error(
    r: Seq<Effect>,
    source: Target,
    m: WebViewManager,
    text: Seq<char>,
) -> bool {
    match source {
        Target::Backend => is_error_effects(r, Target::Backend, text),
        Target::Window(id) => if m.has_id(id) {
            is_error_effects(r, source, text)
        } else {
            is_error_effects(r, Target::Backend, text)
        },
    }
}

/// Report a routing error to its originating window when that window is
/// still live, else to the backend.
pub fn route_error(source: Target, text: String, manager: &WebViewManager) -> (r: Vec<Effect>)
    requires
        manager.wf(),
    ensures
        is_routed_error(r@, source, *manager, text@),
{
    match source {
        Target::Backend => error_effects(source, text),
        Target::Window(id) => {
            if manager.contains_id(id) {
                error_effects(source, text)
            } else {
                error_effects(Target::Backend, text)
            }
        },
    }
}

/// Report a routing error to a fixed side.
pub fn error_effects(source: Target, text: String) -> (r: Vec<Effect>)
    ensures
        is_error_effects(r@, source, text@),
{
    let mut r: Vec<Effect> = Vec::new();
    match source {
        Target::Backend => {
            r.push(Effect::ToBackend(BackendMessage::Info(InfoMessage::Error(text))));
        },
        Target::Window(id) => {
            r.push(
                Effect::Queue(
                    WebViewAction::Message(
                        source,
                        id,
                        WindowMessage::Info(InfoMessage::Error(text)),
                    ),
                ),
            );
        },
    }
    r
}

} // verus!
