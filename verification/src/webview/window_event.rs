use vstd::prelude::*;

use crate::webview::backend_message::BackendMessage;
use crate::webview::effect::Effect;
use crate::webview::info::RequestInfo;
use crate::webview::target::Target;
use crate::webview::webview_action::WebViewAction;
use crate::webview::window_action::WindowAction;
use crate::webview::window_control::WindowControl;
use crate::webview::window_message::WindowMessage;

verus! {

/// Window → broker: one JSON value per native page-to-host call.
#[derive(Clone, Debug)]
pub enum WindowEvent {
    Loaded,
    Message { target: Target, data: String },
    Control { target: Option<i32>, control: WindowControl },
    Window(WindowAction),
    Request(RequestInfo),
}

impl WindowEvent {
    /// Wrap the event with its originating window `id` and decide what to do
    /// with it: a message addressed to the backend goes out directly; every
    /// other event is queued for the central routing step, with a control
    /// request defaulting its target to the sending window.
    pub fn handle(self, id: i32) -> (r: Effect)
        ensures
            match self {
                WindowEvent::Loaded => r == Effect::Queue(
                    WebViewAction::Window(Target::Window(id), WindowAction::Loaded),
                ),
                WindowEvent::Message { target: Target::Backend, data } => r == Effect::ToBackend(
                    BackendMessage::Message { from: id, data },
                ),
                WindowEvent::Message { target: Target::Window(t), data } => r == Effect::Queue(
                    WebViewAction::Message(
                        Target::Window(id),
                        t,
                        WindowMessage::Message { from: Target::Window(id), data },
                    ),
                ),
                WindowEvent::Control { target, control } => r == Effect::Queue(
                    WebViewAction::Window(
                        Target::Window(id),
                        WindowAction::Control {
                            target: if target is Some {
                                target->0
                            } else {
                                id
                            },
                            control,
                        },
                    ),
                ),
                WindowEvent::Window(action) => r == Effect::Queue(
                    WebViewAction::Window(Target::Window(id), action),
                ),
                WindowEvent::Request(info) => r == Effect::Queue(
                    WebViewAction::Request(Target::Window(id), info),
                ),
            },
    {
        let source = Target::Window(id);
        match self {
            WindowEvent::Loaded => Effect::Queue(
                WebViewAction::Window(source, WindowAction::Loaded),
            ),
            WindowEvent::Message { target: Target::Backend, data } => Effect::ToBackend(
                BackendMessage::Message { from: id, data },
            ),
            WindowEvent::Message { target: Target::Window(target), data } => Effect::Queue(
                WebViewAction::Message(
                    source,
                    target,
                    WindowMessage::Message { from: source, data },
                ),
            ),
            WindowEvent::Control { target, control } => {
                let resolved = match target {
                    Some(t) => t,
                    None => id,
                };
                Effect::Queue(
                    WebViewAction::Window(
                        source,
                        WindowAction::Control { target: resolved, control },
                    ),
                )
            },
            WindowEvent::Window(action) => Effect::Queue(WebViewAction::Window(source, action)),
            WindowEvent::Request(info) => Effect::Queue(WebViewAction::Request(source, info)),
        }
    }
}

} // verus!
