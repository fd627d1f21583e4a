use vstd::prelude::*;
use vstd::string::StrSliceExecFns;

use crate::webview::effect::Effect;
use crate::webview::info::RequestInfo;
use crate::webview::target::Target;
use crate::webview::webview_action::WebViewAction;
use crate::webview::window_action::WindowAction;
use crate::webview::window_message::WindowMessage;

verus! {

/// The fixed literal prefix that marks a backend line as an IPC payload.
pub open spec fn ipc_prefix() -> Seq<char> {
    "DEUTRON_IPC:"@
}

/// Split one line off the backend's standard output or error: a line
/// beginning with the fixed IPC prefix carries a JSON event and is handed
/// back without the prefix; any other line is plain log output.
pub fn parse_ipc_line(line: &str) -> (r: Option<String>)
    ensures
        (r is Some) == (line@.len() >= 12 && line@.subrange(0, 12) == ipc_prefix()),
        r matches Some(p) ==> p@ == line@.subrange(12, line@.len() as int),
{
    proof {
        reveal_strlit("DEUTRON_IPC:");
    }
    let n = line.unicode_len();
    if n < 12 {
        return None;
    }
    let pre = "DEUTRON_IPC:";
    let mut i: usize = 0;
    while i < 12
        invariant
            n == line@.len(),
            n >= 12,
            i <= 12,
            pre@ == ipc_prefix(),
            ipc_prefix().len() == 12,
            forall|j: int| 0 <= j < i ==> line@[j] == ipc_prefix()[j],
        decreases 12 - i,
    {
        if line.get_char(i) != pre.get_char(i) {
            proof {
                assert(line@.subrange(0, 12)[i as int] != ipc_prefix()[i as int]);
            }
            return None;
        }
        i = i + 1;
    }
    proof {
        assert(line@.subrange(0, 12) =~= ipc_prefix());
    }
    Some(line.substring_char(12, n).to_owned())
}

/// Backend → broker: one JSON value per recognized line on the backend's
/// standard output.
#[derive(Clone, Debug)]
pub enum BackendEvent {
    Message { target: i32, data: String },
    Window(WindowAction),
    Request(RequestInfo),
}

impl BackendEvent {
    /// Wrap the event with the backend as its source and queue it for the
    /// central routing step.
    pub fn handle(self) -> (r: Effect)
        ensures
            match self {
                BackendEvent::Message { target, data } => r == Effect::Queue(
                    WebViewAction::Message(
                        Target::Backend,
                        target,
                        WindowMessage::Message { from: Target::Backend, data },
                    ),
                ),
                BackendEvent::Window(action) => r == Effect::Queue(
                    WebViewAction::Window(Target::Backend, action),
                ),
                BackendEvent::Request(info) => r == Effect::Queue(
                    WebViewAction::Request(Target::Backend, info),
                ),
            },
    {
        match self {
            BackendEvent::Message { target, data } => Effect::Queue(
                WebViewAction::Message(
                    Target::Backend,
                    target,
                    WindowMessage::Message { from: Target::Backend, data },
                ),
            ),
            BackendEvent::Window(action) => Effect::Queue(
                WebViewAction::Window(Target::Backend, action),
            ),
            BackendEvent::Request(info) => Effect::Queue(
                WebViewAction::Request(Target::Backend, info),
            ),
        }
    }
}

} // verus!
