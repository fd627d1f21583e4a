use vstd::prelude::*;

use crate::webview::effect::Effect;
use crate::webview::info::InfoMessage;
use crate::webview::target::Target;
use crate::webview::webview_manager::{lemma_ids_collision_free, WebViewManager};

verus! {

/// Broker → window: delivered by evaluating the host-provided script
/// expression against the window's page, with the JSON payload as argument.
#[derive(Clone, Debug)]
pub enum WindowMessage {
    Info(InfoMessage),
    Message { from: Target, data: String },
}

/// What a broadcast-to-others effect must look like: it carries the message
/// once, and its target list names every window of `m` other than `sender`
/// exactly once — never `sender` itself.
pub open spec fn is_broadcast_others(
    e: Effect,
    m: WebViewManager,
    sender: i32,
    msg: WindowMessage,
) -> bool {
    e matches Effect::Broadcast(targets, wm) && wm == msg && (forall|w: i32|
        targets@.contains(w) <==> (m.has_id(w) && w != sender)) && targets@.no_duplicates()
}

impl WindowMessage {
    /// Deliver this message to the window with this logical ID; when no such
    /// window is live the send fails, to be reported back to whoever caused
    /// it.
    pub fn send(self, id: i32, manager: &WebViewManager) -> (r: Result<Effect, String>)
        ensures
            manager.has_id(id) ==> (r matches Ok(e) && e == Effect::ToWindow(id, self)),
            !manager.has_id(id) ==> (r matches Err(t) && t@ == "Target window not found"@),
    {
        match manager.get(id) {
            Some(k) => {
                proof {
                    assert(manager.win_ids()[k as int] == manager.entries()[k as int].0);
                }
                Ok(Effect::ToWindow(id, self))
            },
            None => Err("Target window not found".to_owned()),
        }
    }

    /// Deliver this message once to every open window except the one with
    /// this logical ID: a broadcast that never re-delivers to the sender.
    pub fn send_others(self, id: i32, manager: &WebViewManager) -> (r: Effect)
        requires
            manager.wf(),
        ensures
            is_broadcast_others(r, *manager, id, self),
    {
        proof {
            lemma_ids_collision_free(manager);
        }
        let ids = manager.iter_ids();
        let mut targets: Vec<i32> = Vec::new();
        let mut k: usize = 0;
        while k < ids.len()
            invariant
                ids@ == manager.win_ids(),
                forall|i: int, j: int| 0 <= i < j < ids@.len() ==> ids@[i] != ids@[j],
                k <= ids@.len(),
                forall|w: i32|
                    targets@.contains(w) <==> (ids@.take(k as int).contains(w) && w != id),
                targets@.no_duplicates(),
            decreases ids@.len() - k,
        {
            let ghost targets_pre = targets@;
            let ghost t0 = ids@.take(k as int);
            let ghost t1 = ids@.take(k as int + 1);
            let w = ids[k];
            proof {
                assert(t1 =~= t0.push(ids@[k as int]));
            }
            if w != id {
                proof {
                    if targets@.contains(w) {
                        let j = choose|j: int| 0 <= j < t0.len() && t0[j] == w;
                        assert(ids@[j] == ids@[k as int]);
                        assert(false);
                    }
                }
                targets.push(w);
                proof {
                    assert forall|v: i32|
                        targets@.contains(v) <==> (t1.contains(v) && v != id) by {
                        if targets@.contains(v) {
                            let j = choose|j: int|
                                0 <= j < targets@.len() && targets@[j] == v;
                            if j < targets_pre.len() {
                                assert(targets_pre[j] == v);
                                assert(targets_pre.contains(v));
                                let j2 = choose|j2: int| 0 <= j2 < t0.len() && t0[j2] == v;
                                assert(t1[j2] == v);
                            } else {
                                assert(v == w);
                                assert(t1[t1.len() - 1] == w);
                            }
                        }
                        if t1.contains(v) && v != id {
                            let j = choose|j: int| 0 <= j < t1.len() && t1[j] == v;
                            if j < t0.len() {
                                assert(t0[j] == v);
                                assert(t0.contains(v));
                                assert(targets_pre.contains(v));
                                let j2 = choose|j2: int|
                                    0 <= j2 < targets_pre.len() && targets_pre[j2] == v;
                                assert(targets@[j2] == v);
                            } else {
                                assert(v == w);
                                assert(targets@.last() == v);
                            }
                        }
                    }
                    assert(targets@.no_duplicates());
                }
            } else {
                proof {
                    assert forall|v: i32|
                        targets@.contains(v) <==> (t1.contains(v) && v != id) by {
                        if targets@.contains(v) {
                            let j2 = choose|j2: int| 0 <= j2 < t0.len() && t0[j2] == v;
                            assert(t1[j2] == v);
                        }
                        if t1.contains(v) && v != id {
                            let j = choose|j: int| 0 <= j < t1.len() && t1[j] == v;
                            assert(j < t0.len());
                            assert(t0[j] == v);
                        }
                    }
                }
            }
            k = k + 1;
        }
        proof {
            assert(ids@.take(ids@.len() as int) =~= ids@);
        }
        Effect::Broadcast(targets, self)
    }
}

} // verus!
