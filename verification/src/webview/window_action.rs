use vstd::prelude::*;

use crate::webview::backend_message::BackendMessage;
use crate::webview::effect::{error_effects, is_error_effects, is_routed_error, route_error, Effect};
use crate::webview::info::InfoMessage;
use crate::webview::target::Target;
use crate::webview::webview_manager::{WebViewExt, WebViewManager};
use crate::webview::window_config::WindowConfig;
use crate::webview::window_control::WindowControl;
use crate::webview::window_message::{is_broadcast_others, WindowMessage};

verus! {

/// A broker-internal window operation, produced by either side.
#[derive(Clone, Debug)]
pub enum WindowAction {
    Loaded,
    Create(WindowConfig),
    Control { target: i32, control: WindowControl },
}

/// What closing the window with this ID leaves behind: its state and both
/// table entries are gone; the native window is hidden and dropped, the
/// backend is told, every remaining window is told exactly once — and when
/// the closed window was the last one, the backend is terminated and the
/// event loop told to exit, each exactly once.
pub open spec fn close_post(
    id: i32,
    pre: WebViewManager,
    post: WebViewManager,
    r: Seq<Effect>,
) -> bool {
    &&& post.wf()
    &&& !post.has_id(id)
    &&& post.entries().len() == pre.entries().len() - 1
    &&& (exists|k: int|
        0 <= k < pre.entries().len() && #[trigger] pre.entries()[k].0 == id && post.entries()
            == pre.entries().remove(k))
    &&& (forall|p: (i32, u64)|
        #[trigger] post.pairs().contains(p) <==> (pre.pairs().contains(p) && p.0 != id))
    &&& r.len() == (if pre.entries().len() == 1 {
        5int
    } else {
        3int
    })
    &&& r[0] == Effect::CloseNative(id)
    &&& r[1] == Effect::ToBackend(BackendMessage::Info(InfoMessage::Closed(id)))
    &&& is_broadcast_others(r[2], post, id, WindowMessage::Info(InfoMessage::Closed(id)))
    &&& (pre.entries().len() == 1 ==> r[3] == Effect::KillBackend && r[4] == Effect::ExitLoop)
}

/// What handling a `Loaded` signal leaves behind: the sender is marked
/// visible and shown, the backend is told, and every other window is told
/// exactly once.  The backend itself cannot send `Loaded`, and a window
/// that closed before its signal was handled is reported — to itself were
/// it still live, so in practice to the backend — and not touched.
pub open spec fn loaded_post(
    source: Target,
    pre: WebViewManager,
    post: WebViewManager,
    r: Seq<Effect>,
) -> bool {
    match source {
        Target::Backend => post == pre && is_error_effects(
            r,
            source,
            "ID not provided to Loaded event"@,
        ),
        Target::Window(id) => if pre.has_id(id) {
            &&& post.wf()
            &&& post.pairs() == pre.pairs()
            &&& (exists|k: int|
                0 <= k < pre.entries().len() && #[trigger] pre.entries()[k].0 == id
                    && post.entries() == pre.entries().update(
                    k,
                    (id, (WebViewExt { visible: true, ..pre.entries()[k].1 })),
                ))
            &&& r.len() == 3
            &&& r[0] == Effect::ToBackend(BackendMessage::Info(InfoMessage::Loaded(id)))
            &&& is_broadcast_others(r[1], pre, id, WindowMessage::Info(InfoMessage::Loaded(id)))
            &&& r[2] == Effect::ShowWindow(id)
        } else {
            post == pre && is_routed_error(r, source, pre, "Window not found"@)
        },
    }
}

/// What a window-control request leaves behind: fullscreen and maximized
/// flip, minimize and drag are one-way, close tears the window down; a
/// request against no live window is reported to its source.
pub open spec fn control_post(
    target: i32,
    control: WindowControl,
    source: Target,
    pre: WebViewManager,
    post: WebViewManager,
    r: Seq<Effect>,
) -> bool {
    if !pre.has_id(target) {
        post == pre && is_routed_error(r, source, pre, "Window not found"@)
    } else {
        match control {
            WindowControl::Fullscreen => {
                &&& post.wf()
                &&& post.pairs() == pre.pairs()
                &&& (exists|k: int|
                    0 <= k < pre.entries().len() && #[trigger] pre.entries()[k].0 == target
                        && post.entries() == pre.entries().update(
                        k,
                        (
                            target,
                            (WebViewExt {
                                fullscreen: !pre.entries()[k].1.fullscreen,
                                ..pre.entries()[k].1
                            }),
                        ),
                    ) && r == seq![
                        Effect::SetFullscreen(target, !pre.entries()[k].1.fullscreen),
                    ])
            },
            WindowControl::Maximize => {
                &&& post.wf()
                &&& post.pairs() == pre.pairs()
                &&& (exists|k: int|
                    0 <= k < pre.entries().len() && #[trigger] pre.entries()[k].0 == target
                        && post.entries() == pre.entries().update(
                        k,
                        (
                            target,
                            (WebViewExt {
                                maximized: !pre.entries()[k].1.maximized,
                                ..pre.entries()[k].1
                            }),
                        ),
                    ) && r == seq![
                        Effect::SetMaximized(target, !pre.entries()[k].1.maximized),
                    ])
            },
            WindowControl::Minimize => {
                &&& post.wf()
                &&& post.pairs() == pre.pairs()
                &&& (exists|k: int|
                    0 <= k < pre.entries().len() && #[trigger] pre.entries()[k].0 == target
                        && post.entries() == pre.entries().update(
                        k,
                        (target, (WebViewExt { minimized: true, ..pre.entries()[k].1 })),
                    ))
                &&& r == seq![Effect::SetMinimized(target, true)]
            },
            WindowControl::Drag => post == pre && r == seq![Effect::DragWindow(target)],
            WindowControl::Close => close_post(target, pre, post, r),
        }
    }
}

/// What the central routing of one window action leaves behind.
pub open spec fn window_action_post(
    action: WindowAction,
    source: Target,
    pre: WebViewManager,
    post: WebViewManager,
    r: Seq<Effect>,
) -> bool {
    match action {
        WindowAction::Loaded => loaded_post(source, pre, post, r),
        WindowAction::Create(config) => post == pre && r == seq![Effect::OpenWindow(config)],
        WindowAction::Control { target, control } => control_post(
            target,
            control,
            source,
            pre,
            post,
            r,
        ),
    }
}

/// Tear down the window with this logical ID and announce it: hide and drop
/// the native window, tell the backend, tell every remaining window once,
/// and — when no window remains — terminate the backend and exit the loop.
pub fn close_and_announce(manager: &mut WebViewManager, id: i32) -> (r: Vec<Effect>)
    requires
        old(manager).wf(),
        old(manager).has_id(id),
    ensures
        final(manager).wf(),
        close_post(id, *old(manager), *final(manager), r@),
{
    let ghost pre = *manager;
    let mut r: Vec<Effect> = Vec::new();
    r.push(Effect::CloseNative(id));
    manager.close(id);
    r.push(Effect::ToBackend(BackendMessage::Info(InfoMessage::Closed(id))));
    let b = WindowMessage::Info(InfoMessage::Closed(id)).send_others(id, manager);
    r.push(b);
    if manager.is_empty() {
        r.push(Effect::KillBackend);
        r.push(Effect::ExitLoop);
    }
    r
}

impl WindowAction {
    /// The central routing step for a window action from `source`: perform
    /// the state change on the manager and hand back the effects that carry
    /// it out against the native windows and the backend.
    pub fn perform(self, source: Target, manager: &mut WebViewManager) -> (r: Vec<Effect>)
        requires
            old(manager).wf(),
        ensures
            final(manager).wf(),
            window_action_post(self, source, *old(manager), *final(manager), r@),
    {
        match self {
            WindowAction::Loaded => {
                match source {
                    Target::Backend => error_effects(
                        source,
                        "ID not provided to Loaded event".to_owned(),
                    ),
                    Target::Window(id) => {
                        if !manager.contains_id(id) {
                            return route_error(source, "Window not found".to_owned(), manager);
                        }
                        let mut r: Vec<Effect> = Vec::new();
                        r.push(Effect::ToBackend(BackendMessage::Info(InfoMessage::Loaded(id))));
                        let b = WindowMessage::Info(InfoMessage::Loaded(id)).send_others(
                            id,
                            manager,
                        );
                        r.push(b);
                        manager.set_visible(id, true);
                        r.push(Effect::ShowWindow(id));
                        r
                    },
                }
            },
            WindowAction::Control { target, control } => {
                if !manager.contains_id(target) {
                    return route_error(source, "Window not found".to_owned(), manager);
                }
                match control {
                    WindowControl::Fullscreen => {
                        let now = manager.toggle_fullscreen(target);
                        let mut r: Vec<Effect> = Vec::new();
                        r.push(Effect::SetFullscreen(target, now));
                        proof {
                            assert(r@ =~= seq![Effect::SetFullscreen(target, now)]);
                        }
                        r
                    },
                    WindowControl::Maximize => {
                        let now = manager.toggle_maximized(target);
                        let mut r: Vec<Effect> = Vec::new();
                        r.push(Effect::SetMaximized(target, now));
                        proof {
                            assert(r@ =~= seq![Effect::SetMaximized(target, now)]);
                        }
                        r
                    },
                    WindowControl::Minimize => {
                        manager.set_minimized(target, true);
                        let mut r: Vec<Effect> = Vec::new();
                        r.push(Effect::SetMinimized(target, true));
                        proof {
                            assert(r@ =~= seq![Effect::SetMinimized(target, true)]);
                        }
                        r
                    },
                    WindowControl::Drag => {
                        let mut r: Vec<Effect> = Vec::new();
                        r.push(Effect::DragWindow(target));
                        proof {
                            assert(r@ =~= seq![Effect::DragWindow(target)]);
                        }
                        r
                    },
                    WindowControl::Close => close_and_announce(manager, target),
                }
            },
            WindowAction::Create(config) => {
                let mut r: Vec<Effect> = Vec::new();
                r.push(Effect::OpenWindow(config));
                proof {
                    assert(r@ =~= seq![r@[0]]);
                }
                r
            },
        }
    }
}

/// Announce a window that was just created and registered: the backend is
/// told, and every other window is told exactly once.
pub fn announce_created(manager: &WebViewManager, id: i32) -> (r: Vec<Effect>)
    requires
        manager.wf(),
        manager.has_id(id),
    ensures
        r@.len() == 2,
        r@[0] == Effect::ToBackend(BackendMessage::Info(InfoMessage::Created(id))),
        is_broadcast_others(r@[1], *manager, id, WindowMessage::Info(InfoMessage::Created(id))),
{
    let mut r: Vec<Effect> = Vec::new();
    r.push(Effect::ToBackend(BackendMessage::Info(InfoMessage::Created(id))));
    let b = WindowMessage::Info(InfoMessage::Created(id)).send_others(id, manager);
    r.push(b);
    r
}

/// How many times an effect occurs in a list.
pub open spec fn count_effect(r: Seq<Effect>, e: Effect) -> int
    decreases r.len(),
{
    if r.len() == 0 {
        0
    } else {
        (if r.last() == e {
            1int
        } else {
            0int
        }) + count_effect(r.drop_last(), e)
    }
}

/// Closing the last open window produces exactly one backend-termination
/// effect and exactly one event-loop-exit effect; closing a non-last window
/// produces neither.
pub proof fn lemma_close_shutdown(
    id: i32,
    pre: WebViewManager,
    post: WebViewManager,
    r: Seq<Effect>,
)
    requires
        close_post(id, pre, post, r),
    ensures
        count_effect(r, Effect::KillBackend) == if pre.entries().len() == 1 {
            1int
        } else {
            0int
        },
        count_effect(r, Effect::ExitLoop) == if pre.entries().len() == 1 {
            1int
        } else {
            0int
        },
{
    assert(r[2] is Broadcast);
    if pre.entries().len() == 1 {
        assert(r =~= seq![r[0], r[1], r[2], r[3], r[4]]);
        assert(count_effect(r, Effect::KillBackend) == 1) by {
            reveal_with_fuel(count_effect, 6);
        }
        assert(count_effect(r, Effect::ExitLoop) == 1) by {
            reveal_with_fuel(count_effect, 6);
        }
    } else {
        assert(r =~= seq![r[0], r[1], r[2]]);
        assert(count_effect(r, Effect::KillBackend) == 0) by {
            reveal_with_fuel(count_effect, 4);
        }
        assert(count_effect(r, Effect::ExitLoop) == 0) by {
            reveal_with_fuel(count_effect, 4);
        }
    }
}

} // verus!
