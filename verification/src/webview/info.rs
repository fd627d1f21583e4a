use vstd::prelude::*;

use crate::webview::backend_message::BackendMessage;
use crate::webview::effect::{error_effects, is_error_effects, is_routed_error, route_error, Effect};
use crate::webview::target::Target;
use crate::webview::webview_manager::{WebViewExt, WebViewManager};
use crate::webview::window_message::WindowMessage;

verus! {

/// Notifications and lookup results carried to either side.
#[derive(Clone, Debug)]
pub enum InfoMessage {
    Loaded(i32),
    Created(i32),
    Closed(i32),
    Response(ResponseInfo),
    Error(String),
}

/// Snapshot of one live window, as handed back by an info request.
#[derive(Clone, Debug)]
pub struct WindowInfo {
    pub id: i32,
    pub title: String,
    pub url: String,
    pub fullscreen: bool,
}

/// The payload of a resolved info request.
#[derive(Clone, Debug)]
pub enum ResponseInfo {
    Windows(Vec<WindowInfo>),
    Window(WindowInfo),
}

/// A synchronous lookup either side may issue: all window snapshots, or one
/// window's snapshot (`None` meaning the requesting window itself).
#[derive(Clone, Copy, Debug)]
pub enum RequestInfo {
    Windows,
    Window(Option<i32>),
}

impl WindowInfo {
    /// The snapshot reported for one live window.
    pub open spec fn of_entry(e: (i32, WebViewExt)) -> WindowInfo {
        WindowInfo { id: e.0, title: e.1.title, url: e.1.url, fullscreen: e.1.fullscreen }
    }

    /// Build the snapshot from the window's observed state.
    pub fn from_webview(id: i32, webview: &WebViewExt) -> (r: WindowInfo)
        ensures
            r == WindowInfo::of_entry((id, *webview)),
    {
        WindowInfo {
            id,
            title: webview.title.clone(),
            url: webview.url.clone(),
            fullscreen: webview.fullscreen,
        }
    }
}

/// The snapshots of all live windows, in creation order.
pub open spec fn all_snapshots(m: WebViewManager) -> Seq<WindowInfo> {
    m.entries().map_values(|e: (i32, WebViewExt)| WindowInfo::of_entry(e))
}

/// What resolving an info request leaves behind.  A request for all windows
/// answers with every snapshot.  A request for one window answers with that
/// window's snapshot, defaulting to the requester when no ID is given — the
/// backend must always give one, so its bare request is a request-shape
/// error.  A response goes only to the requester, never broadcast; failures
/// become errors routed to whichever side can still display them: the
/// requester while it is a live window, else the backend.
pub open spec fn request_post(
    req: RequestInfo,
    target: Target,
    m: WebViewManager,
    r: Seq<Effect>,
) -> bool {
    match req {
        RequestInfo::Windows => {
            match target {
                Target::Backend => r.len() == 1 && (r[0] matches Effect::ToBackend(
                    BackendMessage::Info(InfoMessage::Response(ResponseInfo::Windows(v))),
                ) && v@ == all_snapshots(m)),
                Target::Window(src) => if m.has_id(src) {
                    r.len() == 1 && (r[0] matches Effect::ToWindow(
                        tid,
                        WindowMessage::Info(InfoMessage::Response(ResponseInfo::Windows(v))),
                    ) && tid == src && v@ == all_snapshots(m))
                } else {
                    is_routed_error(r, target, m, "Target window not found"@)
                },
            }
        },
        RequestInfo::Window(idopt) => {
            if idopt is None && target is Backend {
                is_error_effects(r, target, "Backend needs to provide a window id"@)
            } else {
                let wid = if idopt is Some {
                    idopt->Some_0
                } else {
                    target->Window_0
                };
                if !m.has_id(wid) {
                    is_routed_error(r, target, m, "Window not found"@)
                } else {
                    exists|k: int|
                        0 <= k < m.entries().len() && #[trigger] m.entries()[k].0 == wid && (
                        match target {
                            Target::Backend => r.len() == 1 && (r[0] matches Effect::ToBackend(
                                BackendMessage::Info(
                                    InfoMessage::Response(ResponseInfo::Window(info)),
                                ),
                            ) && info == WindowInfo::of_entry(m.entries()[k])),
                            Target::Window(src) => if m.has_id(src) {
                                r.len() == 1 && (r[0] matches Effect::ToWindow(
                                    tid,
                                    WindowMessage::Info(
                                        InfoMessage::Response(ResponseInfo::Window(info)),
                                    ),
                                ) && tid == src && info == WindowInfo::of_entry(m.entries()[k]))
                            } else {
                                is_routed_error(r, target, m, "Target window not found"@)
                            },
                        })
                }
            }
        },
    }
}

/// The snapshots of all live windows, as an executable list.
fn snapshots(manager: &WebViewManager) -> (r: Vec<WindowInfo>)
    ensures
        r@ == all_snapshots(*manager),
{
    let ws = manager.iter_webviews();
    let mut r: Vec<WindowInfo> = Vec::new();
    let mut k: usize = 0;
    while k < ws.len()
        invariant
            ws@ == manager.entries(),
            k <= ws@.len(),
            r@.len() == k,
            forall|j: int|
                0 <= j < k ==> r@[j] == WindowInfo::of_entry(manager.entries()[j]),
        decreases ws@.len() - k,
    {
        let info = WindowInfo::from_webview(ws[k].0, &ws[k].1);
        r.push(info);
        k = k + 1;
    }
    proof {
        assert(r@ =~= all_snapshots(*manager));
    }
    r
}

impl RequestInfo {
    /// Resolve the request against the live windows and return the effects
    /// that deliver the response — or the routed error — to the requester.
    pub fn perform(self, target: Target, manager: &WebViewManager) -> (r: Vec<Effect>)
        requires
            manager.wf(),
        ensures
            request_post(self, target, *manager, r@),
    {
        match self {
            RequestInfo::Windows => {
                let infos = snapshots(manager);
                let message = InfoMessage::Response(ResponseInfo::Windows(infos));
                match target {
                    Target::Window(src) => {
                        match WindowMessage::Info(message).send(src, manager) {
                            Ok(e) => {
                                let mut r: Vec<Effect> = Vec::new();
                                r.push(e);
                                r
                            },
                            Err(t) => route_error(target, t, manager),
                        }
                    },
                    Target::Backend => {
                        let mut r: Vec<Effect> = Vec::new();
                        r.push(Effect::ToBackend(BackendMessage::Info(message)));
                        r
                    },
                }
            },
            RequestInfo::Window(idopt) => {
                let wid = match idopt {
                    Some(w) => w,
                    None => {
                        match target {
                            Target::Backend => {
                                return error_effects(
                                    target,
                                    "Backend needs to provide a window id".to_owned(),
                                );
                            },
                            Target::Window(cur) => cur,
                        }
                    },
                };
                let k = match manager.get(wid) {
                    Some(k) => k,
                    None => {
                        return route_error(target, "Window not found".to_owned(), manager);
                    },
                };
                proof {
                    assert(manager.win_ids()[k as int] == manager.entries()[k as int].0);
                }
                let ws = manager.iter_webviews();
                let info = WindowInfo::from_webview(wid, &ws[k].1);
                let message = InfoMessage::Response(ResponseInfo::Window(info));
                match target {
                    Target::Window(src) => {
                        match WindowMessage::Info(message).send(src, manager) {
                            Ok(e) => {
                                let mut r: Vec<Effect> = Vec::new();
                                r.push(e);
                                r
                            },
                            Err(t) => route_error(target, t, manager),
                        }
                    },
                    Target::Backend => {
                        let mut r: Vec<Effect> = Vec::new();
                        r.push(Effect::ToBackend(BackendMessage::Info(message)));
                        r
                    },
                }
            },
        }
    }
}

} // verus!
