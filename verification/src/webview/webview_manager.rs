use vstd::prelude::*;

use crate::webview::effect::{is_routed_error, route_error, Effect};
use crate::webview::idmap::{
    bimap_contains_left, bimap_get_by_right, bimap_insert, bimap_new, bimap_pairs,
    bimap_remove_by_left,
};
use crate::webview::info::request_post;
use crate::webview::webview_action::WebViewAction;
use crate::webview::window_action::{close_and_announce, close_post, window_action_post};
use crate::webview::window_config::WindowConfig;

verus! {

/// What the broker observes of one live window: the state the native window
/// and its content host were last put into.
#[derive(Debug)]
pub struct WebViewExt {
    pub title: String,
    pub url: String,
    pub visible: bool,
    pub fullscreen: bool,
    pub maximized: bool,
    pub minimized: bool,
}

/// A window named either by its logical ID or by its native handle.
#[derive(Clone, Copy, Debug, PartialEq, Eq, Structural)]
pub enum WindowManagerId {
    Number(i32),
    Native(u64),
}

/// The most windows the manager will track: the candidate range of the ID
/// allocator's deterministic fallback must fit the 32-bit ID space.
pub const MAX_WINDOWS: usize = 0x7fff_ffff;

/// Owns the set of live windows: a bidirectional logical-ID ↔ native-handle
/// table and, per logical ID, the observed window state.
pub struct WebViewManager {
    ids: bimap::BiMap<i32, u64>,
    webviews: Vec<(i32, WebViewExt)>,
}

impl WebViewManager {
    /// The live windows, in creation order: logical ID and observed state.
    pub closed spec fn entries(&self) -> Seq<(i32, WebViewExt)> {
        self.webviews@
    }

    /// The (logical ID, native handle) pairs of the table.
    pub closed spec fn pairs(&self) -> Set<(i32, u64)> {
        bimap_pairs(self.ids)
    }

    /// The logical IDs of the live windows, in creation order.
    pub open spec fn win_ids(&self) -> Seq<i32> {
        self.entries().map_values(|e: (i32, WebViewExt)| e.0)
    }

    /// True when a window with this logical ID is live.
    pub open spec fn has_id(&self, id: i32) -> bool {
        self.win_ids().contains(id)
    }

    /// True when some live window has this native handle.
    pub open spec fn has_native(&self, h: u64) -> bool {
        exists|p: (i32, u64)| #[trigger] self.pairs().contains(p) && p.1 == h
    }

    /// True when the table pairs this logical ID with some native handle.
    pub open spec fn id_mapped(&self, id: i32) -> bool {
        exists|p: (i32, u64)| #[trigger] self.pairs().contains(p) && p.0 == id
    }

    /// No two live windows share a logical ID.
    pub open spec fn ids_distinct(&self) -> bool {
        forall|i: int, j: int|
            0 <= i < j < self.entries().len() ==> self.entries()[i].0 != self.entries()[j].0
    }

    /// The manager's invariant: IDs are pairwise distinct, the table and the
    /// window set name exactly the same logical IDs, and the table pairs
    /// each logical ID with exactly one native handle and vice versa.
    pub open spec fn wf(&self) -> bool {
        &&& self.ids_distinct()
        &&& forall|p: (i32, u64)| #[trigger] self.pairs().contains(p) ==> self.has_id(p.0)
        &&& forall|k: int| 0 <= k < self.entries().len() ==> self.id_mapped(self.entries()[k].0)
        &&& forall|p: (i32, u64), q: (i32, u64)|
            #[trigger] self.pairs().contains(p) && #[trigger] self.pairs().contains(q) && p.0
                == q.0 ==> p == q
        &&& forall|p: (i32, u64), q: (i32, u64)|
            #[trigger] self.pairs().contains(p) && #[trigger] self.pairs().contains(q) && p.1
                == q.1 ==> p == q
    }

    /// An empty manager: no windows, no table entries.
    pub fn new() -> (m: WebViewManager)
        ensures
            m.wf(),
            m.entries() == Seq::<(i32, WebViewExt)>::empty(),
            m.pairs() == Set::<(i32, u64)>::empty(),
    {
        let m = WebViewManager { ids: bimap_new(), webviews: Vec::new() };
        proof {
            assert(m.win_ids() =~= Seq::<i32>::empty());
        }
        m
    }

    /// True iff no windows remain: the signal that terminates the backend
    /// and ends the event loop.
    pub fn is_empty(&self) -> (b: bool)
        ensures
            b == (self.entries().len() == 0),
    {
        self.webviews.is_empty()
    }

    /// Whether a window with this logical ID is live, answered by the table.
    pub fn contains_id(&self, id: i32) -> (b: bool)
        requires
            self.wf(),
        ensures
            b == self.has_id(id),
    {
        let b = bimap_contains_left(&self.ids, id);
        proof {
            if b {
                let p = choose|p: (i32, u64)|
                    #[trigger] bimap_pairs(self.ids).contains(p) && p.0 == id;
                assert(self.pairs().contains(p));
            }
            if self.has_id(id) {
                let i = choose|i: int| 0 <= i < self.win_ids().len() && self.win_ids()[i] == id;
                assert(self.win_ids()[i] == self.entries()[i].0);
                assert(self.id_mapped(id));
                let p = choose|p: (i32, u64)|
                    #[trigger] self.pairs().contains(p) && p.0 == id;
                assert(bimap_pairs(self.ids).contains(p) && p.0 == id);
            }
        }
        b
    }

    /// The slot of the live window with this logical ID, if any.
    pub fn get(&self, id: i32) -> (r: Option<usize>)
        ensures
            r matches Some(k) ==> k < self.entries().len() && self.entries()[k as int].0 == id,
            r is None ==> !self.has_id(id),
    {
        let mut k: usize = 0;
        while k < self.webviews.len()
            invariant
                k <= self.entries().len(),
                forall|j: int| 0 <= j < k ==> self.entries()[j].0 != id,
        decreases self.entries().len() - k,
        {
            if self.webviews[k].0 == id {
                return Some(k);
            }
            k = k + 1;
        }
        proof {
            assert(forall|j: int|
                0 <= j < self.win_ids().len() ==> self.win_ids()[j] == self.entries()[j].0);
        }
        None
    }

    /// The logical ID registered for this native handle, if any.
    pub fn get_by_native(&self, h: u64) -> (r: Option<i32>)
        requires
            self.wf(),
        ensures
            r matches Some(id) ==> self.pairs().contains((id, h)) && self.has_id(id),
            r is None ==> !self.has_native(h),
    {
        bimap_get_by_right(&self.ids, h)
    }

    /// All live logical IDs, in creation order.
    pub fn iter_ids(&self) -> (r: Vec<i32>)
        ensures
            r@ == self.win_ids(),
    {
        let mut r: Vec<i32> = Vec::new();
        let mut k: usize = 0;
        while k < self.webviews.len()
            invariant
                k <= self.entries().len(),
                r@.len() == k,
                forall|j: int| 0 <= j < k ==> r@[j] == self.entries()[j].0,
            decreases self.entries().len() - k,
        {
            r.push(self.webviews[k].0);
            k = k + 1;
        }
        proof {
            assert(r@ =~= self.win_ids());
        }
        r
    }

    /// The live windows themselves: logical ID and observed state.
    pub fn iter_webviews(&self) -> (r: &Vec<(i32, WebViewExt)>)
        ensures
            r@ == self.entries(),
    {
        &self.webviews
    }

    /// Pick a logical ID that collides with no live window: drawn at random
    /// and retried on collision; after a bounded number of draws, found by
    /// scanning a candidate range one wider than the window count.
    pub fn gen_id(&mut self) -> (id: i32)
        requires
            old(self).wf(),
            old(self).entries().len() < MAX_WINDOWS,
        ensures
            *final(self) == *old(self),
            !old(self).has_id(id),
    {
        let mut attempts: usize = 0;
        while attempts < 64
            invariant
                *self == *old(self),
                self.wf(),
            decreases 64 - attempts,
        {
            let id = random_i32();
            if !self.contains_id(id) {
                return id;
            }
            attempts = attempts + 1;
        }
        let n = self.webviews.len();
        let mut c: i32 = 0;
        while c <= n as i32
            invariant
                *self == *old(self),
                self.wf(),
                n == self.entries().len(),
                n < MAX_WINDOWS,
                0 <= c <= n + 1,
                forall|v: int| 0 <= v < c ==> self.win_ids().contains(#[trigger] (v as i32)),
            decreases n + 1 - c,
        {
            if !self.contains_id(c) {
                return c;
            }
            c = c + 1;
        }
        proof {
            assert(forall|i: int, j: int|
                0 <= i < j < self.win_ids().len() ==> self.win_ids()[i] != self.win_ids()[j]);
            lemma_distinct_all_present_min_len(self.win_ids(), n as int);
            assert(false);
        }
        0
    }

    /// Register the ID ↔ native pair and the window's observed state.
    pub fn set(&mut self, id: i32, native: u64, webview: WebViewExt) -> (r: i32)
        requires
            old(self).wf(),
            !old(self).has_id(id),
            !old(self).has_native(native),
        ensures
            final(self).wf(),
            r == id,
            final(self).entries() == old(self).entries().push((id, webview)),
            final(self).pairs() == old(self).pairs().insert((id, native)),
    {
        proof {
            assert forall|p: (i32, u64)| bimap_pairs(self.ids).contains(p) implies p.0 != id
                && p.1 != native by {
                assert(self.pairs().contains(p));
                if p.0 == id {
                    assert(self.has_id(id));
                }
            }
        }
        bimap_insert(&mut self.ids, id, native);
        self.webviews.push((id, webview));
        proof {
            self.lemma_set_wf(*old(self), id, native, webview);
        }
        id
    }

    /// Allocate a collision-free logical ID for a freshly built native
    /// window and register it together with the state its configuration
    /// asked for: created hidden, windowed, unmaximized, unminimized.
    pub fn create_window(&mut self, window_config: WindowConfig, native: u64) -> (id: i32)
        requires
            old(self).wf(),
            !old(self).has_native(native),
            old(self).entries().len() < MAX_WINDOWS,
        ensures
            final(self).wf(),
            !old(self).has_id(id),
            final(self).has_id(id),
            final(self).entries() == old(self).entries().push(
                (id, WebViewExt::initial(window_config)),
            ),
            final(self).pairs() == old(self).pairs().insert((id, native)),
    {
        let id = self.gen_id();
        let state = WebViewExt {
            title: window_config.title,
            url: window_config.url,
            visible: false,
            fullscreen: false,
            maximized: false,
            minimized: false,
        };
        let r = self.set(id, native, state);
        proof {
            assert(self.win_ids() =~= old(self).win_ids().push(id));
            assert(self.win_ids()[self.win_ids().len() - 1] == id);
        }
        r
    }

    /// Remove the window's state and both directions of its table entry.
    pub fn close(&mut self, id: i32)
        requires
            old(self).wf(),
            old(self).has_id(id),
        ensures
            final(self).wf(),
            !final(self).has_id(id),
            final(self).entries().len() == old(self).entries().len() - 1,
            exists|k: int|
                0 <= k < old(self).entries().len() && old(self).entries()[k].0 == id
                    && final(self).entries() == old(self).entries().remove(k),
            forall|p: (i32, u64)|
                #[trigger] final(self).pairs().contains(p) <==> (old(self).pairs().contains(p)
                    && p.0 != id),
    {
        let k = match self.get(id) {
            Some(k) => k,
            None => {
                proof {
                    assert(false);
                }
                0
            },
        };
        self.webviews.remove(k);
        let ghost mid = *self;
        let removed = bimap_remove_by_left(&mut self.ids, id);
        proof {
            self.lemma_close_wf(*old(self), mid, id, k as int, removed);
        }
    }

    /// Record that the window's page has signalled "loaded" or that it was
    /// hidden again: the visibility the native window was put into.
    pub fn set_visible(&mut self, id: i32, v: bool)
        requires
            old(self).wf(),
            old(self).has_id(id),
        ensures
            final(self).wf(),
            final(self).pairs() == old(self).pairs(),
            exists|k: int|
                0 <= k < old(self).entries().len() && old(self).entries()[k].0 == id
                    && final(self).entries() == old(self).entries().update(
                    k,
                    (id, (WebViewExt { visible: v, ..old(self).entries()[k].1 })),
                ),
    {
        let k = self.slot_of(id);
        let mut e = self.webviews.remove(k);
        e.1.visible = v;
        self.webviews.insert(k, e);
        proof {
            self.lemma_update_wf(*old(self), k as int);
        }
    }

    /// Flip the window in or out of borderless fullscreen; the result says
    /// which way the native window must now be put.
    pub fn toggle_fullscreen(&mut self, id: i32) -> (now: bool)
        requires
            old(self).wf(),
            old(self).has_id(id),
        ensures
            final(self).wf(),
            final(self).pairs() == old(self).pairs(),
            exists|k: int|
                0 <= k < old(self).entries().len() && old(self).entries()[k].0 == id && now
                    == !old(self).entries()[k].1.fullscreen && final(self).entries() == old(
                    self,
                ).entries().update(
                    k,
                    (id, (WebViewExt { fullscreen: now, ..old(self).entries()[k].1 })),
                ),
    {
        let k = self.slot_of(id);
        let mut e = self.webviews.remove(k);
        let now = !e.1.fullscreen;
        e.1.fullscreen = now;
        self.webviews.insert(k, e);
        proof {
            self.lemma_update_wf(*old(self), k as int);
        }
        now
    }

    /// Flip the window between maximized and restored; the result says which
    /// way the native window must now be put.
    pub fn toggle_maximized(&mut self, id: i32) -> (now: bool)
        requires
            old(self).wf(),
            old(self).has_id(id),
        ensures
            final(self).wf(),
            final(self).pairs() == old(self).pairs(),
            exists|k: int|
                0 <= k < old(self).entries().len() && old(self).entries()[k].0 == id && now
                    == !old(self).entries()[k].1.maximized && final(self).entries() == old(
                    self,
                ).entries().update(
                    k,
                    (id, (WebViewExt { maximized: now, ..old(self).entries()[k].1 })),
                ),
    {
        let k = self.slot_of(id);
        let mut e = self.webviews.remove(k);
        let now = !e.1.maximized;
        e.1.maximized = now;
        self.webviews.insert(k, e);
        proof {
            self.lemma_update_wf(*old(self), k as int);
        }
        now
    }

    /// Record that the window was minimized.
    pub fn set_minimized(&mut self, id: i32, v: bool)
        requires
            old(self).wf(),
            old(self).has_id(id),
        ensures
            final(self).wf(),
            final(self).pairs() == old(self).pairs(),
            exists|k: int|
                0 <= k < old(self).entries().len() && old(self).entries()[k].0 == id
                    && final(self).entries() == old(self).entries().update(
                    k,
                    (id, (WebViewExt { minimized: v, ..old(self).entries()[k].1 })),
                ),
    {
        let k = self.slot_of(id);
        let mut e = self.webviews.remove(k);
        e.1.minimized = v;
        self.webviews.insert(k, e);
        proof {
            self.lemma_update_wf(*old(self), k as int);
        }
    }

    /// The slot of a window known to be live.
    fn slot_of(&self, id: i32) -> (k: usize)
        requires
            self.has_id(id),
        ensures
            k < self.entries().len(),
            self.entries()[k as int].0 == id,
    {
        match self.get(id) {
            Some(k) => k,
            None => {
                proof {
                    assert(false);
                }
                0
            },
        }
    }

    /// Helper: replacing one entry's state, keeping its ID, preserves the
    /// invariant.
    proof fn lemma_update_wf(&self, pre: WebViewManager, k: int)
        requires
            pre.wf(),
            self.pairs() == pre.pairs(),
            0 <= k < pre.entries().len(),
            self.entries().len() == pre.entries().len(),
            forall|i: int|
                0 <= i < pre.entries().len() ==> self.entries()[i].0 == pre.entries()[i].0,
        ensures
            self.wf(),
    {
        assert(self.win_ids() =~= pre.win_ids());
    }

    /// Helper: `set` preserves the invariant.
    proof fn lemma_set_wf(&self, pre: WebViewManager, id: i32, native: u64, webview: WebViewExt)
        requires
            pre.wf(),
            !pre.has_id(id),
            !pre.has_native(native),
            self.entries() == pre.entries().push((id, webview)),
            self.pairs() == pre.pairs().insert((id, native)),
        ensures
            self.wf(),
    {
        let n = pre.entries().len() as int;
        assert(self.win_ids() =~= pre.win_ids().push(id));
        assert forall|i: int, j: int|
            0 <= i < j < self.entries().len() implies self.entries()[i].0
            != self.entries()[j].0 by {
            if j < n {
                assert(pre.entries()[i].0 != pre.entries()[j].0);
            } else {
                assert(self.entries()[j].0 == id);
                assert(pre.win_ids()[i] == pre.entries()[i].0);
                if pre.entries()[i].0 == id {
                    assert(pre.win_ids().contains(id));
                }
            }
        }
        assert forall|p: (i32, u64)| #[trigger] self.pairs().contains(p) implies self.has_id(
            p.0,
        ) by {
            if p == (id, native) {
                assert(self.win_ids()[n] == id);
            } else {
                assert(pre.pairs().contains(p));
                assert(pre.has_id(p.0));
                let i = choose|i: int|
                    0 <= i < pre.win_ids().len() && pre.win_ids()[i] == p.0;
                assert(self.win_ids()[i] == p.0);
            }
        }
        assert forall|k: int| 0 <= k < self.entries().len() implies self.id_mapped(
            self.entries()[k].0,
        ) by {
            if k < n {
                assert(pre.id_mapped(pre.entries()[k].0));
                let p = choose|p: (i32, u64)|
                    #[trigger] pre.pairs().contains(p) && p.0 == pre.entries()[k].0;
                assert(self.pairs().contains(p));
            } else {
                assert(self.pairs().contains((id, native)));
            }
        }
        assert forall|p: (i32, u64), q: (i32, u64)|
            #[trigger] self.pairs().contains(p) && #[trigger] self.pairs().contains(q) && p.0
                == q.0 implies p == q by {
            if p != (id, native) && q != (id, native) {
                assert(pre.pairs().contains(p) && pre.pairs().contains(q));
            } else if p == (id, native) && q != (id, native) {
                assert(pre.pairs().contains(q));
                assert(pre.has_id(q.0));
            } else if q == (id, native) && p != (id, native) {
                assert(pre.pairs().contains(p));
                assert(pre.has_id(p.0));
            }
        }
        assert forall|p: (i32, u64), q: (i32, u64)|
            #[trigger] self.pairs().contains(p) && #[trigger] self.pairs().contains(q) && p.1
                == q.1 implies p == q by {
            if p != (id, native) && q != (id, native) {
                assert(pre.pairs().contains(p) && pre.pairs().contains(q));
            }
        }
    }

    /// Helper: `close` preserves the invariant.
    proof fn lemma_close_wf(
        &self,
        pre: WebViewManager,
        mid: WebViewManager,
        id: i32,
        k: int,
        removed: Option<(i32, u64)>,
    )
        requires
            pre.wf(),
            pre.has_id(id),
            0 <= k < pre.entries().len(),
            pre.entries()[k].0 == id,
            mid.entries() == pre.entries().remove(k),
            mid.pairs() == pre.pairs(),
            self.entries() == mid.entries(),
            removed matches Some(p) ==> p.0 == id && pre.pairs().contains(p) && self.pairs()
                == pre.pairs().remove(p),
            removed is None ==> self.pairs() == pre.pairs() && (forall|p: (i32, u64)|
                #[trigger] pre.pairs().contains(p) ==> p.0 != id),
        ensures
            self.wf(),
            !self.has_id(id),
            forall|p: (i32, u64)|
                #[trigger] self.pairs().contains(p) <==> (pre.pairs().contains(p) && p.0 != id),
    {
        let n = pre.entries().len() as int;
        // the table held a pair for id, so remove_by_left cannot have missed
        assert(pre.id_mapped(pre.entries()[k].0));
        let pid = choose|p: (i32, u64)| #[trigger] pre.pairs().contains(p) && p.0 == id;
        assert(removed is Some);
        let rp = removed->Some_0;
        // pairs: exactly the pairs whose left is not id remain
        assert forall|p: (i32, u64)|
            #[trigger] self.pairs().contains(p) <==> (pre.pairs().contains(p) && p.0 != id) by {
            if pre.pairs().contains(p) && p.0 == id {
                assert(p == rp);
            }
        }
        // entry IDs: every ID but `id` survives, at a shifted index
        assert forall|i: int, j: int|
            0 <= i < j < self.entries().len() implies self.entries()[i].0
            != self.entries()[j].0 by {
            let i0 = if i < k {
                i
            } else {
                i + 1
            };
            let j0 = if j < k {
                j
            } else {
                j + 1
            };
            assert(self.entries()[i] == pre.entries()[i0]);
            assert(self.entries()[j] == pre.entries()[j0]);
        }
        assert forall|i: int| 0 <= i < self.entries().len() implies self.entries()[i].0
            != id by {
            let i0 = if i < k {
                i
            } else {
                i + 1
            };
            assert(self.entries()[i] == pre.entries()[i0]);
            if i0 != k {
                assert(pre.entries()[i0].0 != pre.entries()[k].0);
            }
        }
        assert forall|i: int| 0 <= i < self.win_ids().len() implies self.win_ids()[i] != id by {
            assert(self.win_ids()[i] == self.entries()[i].0);
        }
        assert(!self.has_id(id));
        assert forall|p: (i32, u64)| #[trigger] self.pairs().contains(p) implies self.has_id(
            p.0,
        ) by {
            assert(pre.pairs().contains(p) && p.0 != id);
            assert(pre.has_id(p.0));
            let i0 = choose|i0: int|
                0 <= i0 < pre.win_ids().len() && pre.win_ids()[i0] == p.0;
            assert(pre.entries()[i0].0 == p.0);
            assert(i0 != k);
            let i = if i0 < k {
                i0
            } else {
                i0 - 1
            };
            assert(self.entries()[i] == pre.entries()[i0]);
            assert(self.win_ids()[i] == p.0);
        }
        assert forall|j: int| 0 <= j < self.entries().len() implies self.id_mapped(
            self.entries()[j].0,
        ) by {
            let j0 = if j < k {
                j
            } else {
                j + 1
            };
            assert(self.entries()[j] == pre.entries()[j0]);
            assert(pre.id_mapped(pre.entries()[j0].0));
            let p = choose|p: (i32, u64)|
                #[trigger] pre.pairs().contains(p) && p.0 == pre.entries()[j0].0;
            assert(self.entries()[j].0 != id);
            assert(self.pairs().contains(p));
        }
        assert forall|p: (i32, u64), q: (i32, u64)|
            #[trigger] self.pairs().contains(p) && #[trigger] self.pairs().contains(q) && p.0
                == q.0 implies p == q by {
            assert(pre.pairs().contains(p) && pre.pairs().contains(q));
        }
        assert forall|p: (i32, u64), q: (i32, u64)|
            #[trigger] self.pairs().contains(p) && #[trigger] self.pairs().contains(q) && p.1
                == q.1 implies p == q by {
            assert(pre.pairs().contains(p) && pre.pairs().contains(q));
        }
    }
}

impl WebViewExt {
    /// The observed state a window starts in: titled and pointed as its
    /// configuration asked, and hidden until its page signals "loaded".
    pub open spec fn initial(c: WindowConfig) -> WebViewExt {
        WebViewExt {
            title: c.title,
            url: c.url,
            visible: false,
            fullscreen: false,
            maximized: false,
            minimized: false,
        }
    }
}

impl WindowManagerId {
    /// Resolve either naming to the logical ID: a native handle is looked up
    /// in the table, which must hold it.
    pub fn to_number(&self, manager: &WebViewManager) -> (r: i32)
        requires
            manager.wf(),
            self matches WindowManagerId::Native(h) ==> manager.has_native(*h),
        ensures
            match *self {
                WindowManagerId::Number(n) => r == n,
                WindowManagerId::Native(h) => manager.pairs().contains((r, h)),
            },
    {
        match self {
            WindowManagerId::Number(n) => *n,
            WindowManagerId::Native(h) => {
                match manager.get_by_native(*h) {
                    Some(id) => id,
                    None => {
                        proof {
                            assert(false);
                        }
                        0
                    },
                }
            },
        }
    }
}

impl WebViewManager {
    /// The central routing step: every inbound event, wrapped with its
    /// source, funnels through here, and the state change it asks for is
    /// made before any outbound effect is handed back.
    pub fn handle_user_events(&mut self, user_event: WebViewAction) -> (r: Vec<Effect>)
        requires
            old(self).wf(),
        ensures
            final(self).wf(),
            match user_event {
                WebViewAction::Message(source, id, message) => *final(self) == *old(self) && (
                if old(self).has_id(id) {
                    r@ == seq![Effect::ToWindow(id, message)]
                } else {
                    is_routed_error(r@, source, *old(self), "Target window not found"@)
                }),
                WebViewAction::Window(source, action) => window_action_post(
                    action,
                    source,
                    *old(self),
                    *final(self),
                    r@,
                ),
                WebViewAction::Request(source, request) => *final(self) == *old(self)
                    && request_post(request, source, *old(self), r@),
            },
    {
        match user_event {
            WebViewAction::Message(source, id, message) => {
                match message.send(id, self) {
                    Ok(e) => {
                        let mut r: Vec<Effect> = Vec::new();
                        r.push(e);
                        proof {
                            assert(r@ =~= seq![e]);
                        }
                        r
                    },
                    Err(t) => route_error(source, t, self),
                }
            },
            WebViewAction::Window(source, action) => action.perform(source, self),
            WebViewAction::Request(source, request) => request.perform(source, self),
        }
    }

    /// A native close request from the windowing system, named by its native
    /// handle: tear the window down as a close control would.  A handle no
    /// live window owns is ignored.
    pub fn handle_close_requested(&mut self, native: u64) -> (r: Vec<Effect>)
        requires
            old(self).wf(),
        ensures
            final(self).wf(),
            old(self).has_native(native) ==> (exists|id: i32|
                #[trigger] old(self).pairs().contains((id, native)) && close_post(
                    id,
                    *old(self),
                    *final(self),
                    r@,
                )),
            !old(self).has_native(native) ==> *final(self) == *old(self) && r@
                == Seq::<Effect>::empty(),
    {
        let id = match self.get_by_native(native) {
            Some(id) => id,
            None => {
                let r: Vec<Effect> = Vec::new();
                proof {
                    assert(r@ =~= Seq::<Effect>::empty());
                }
                return r;
            },
        };
        close_and_announce(self, id)
    }
}

/// Relies on rand::random: an i32 drawn from thread-local randomness.
/// Nothing is promised of its value.
#[verifier::external_body]
fn random_i32() -> i32 {
    rand::random::<i32>()
}

/// Pigeonhole: a sequence of pairwise-distinct values holding every one of
/// the `n + 1` candidates `0..=n` has more than `n` elements.
proof fn lemma_distinct_all_present_min_len(s: Seq<i32>, n: int)
    requires
        0 <= n <= i32::MAX,
        forall|i: int, j: int| 0 <= i < j < s.len() ==> s[i] != s[j],
        forall|v: int| 0 <= v <= n ==> s.contains(#[trigger] (v as i32)),
    ensures
        s.len() > n,
    decreases n,
{
    assert(s.contains(n as i32));
    let idx = choose|k: int| 0 <= k < s.len() && s[k] == n as i32;
    if n == 0 {
    } else {
        let s2 = s.remove(idx);
        assert forall|i: int, j: int| 0 <= i < j < s2.len() implies s2[i] != s2[j] by {
            let i0 = if i < idx {
                i
            } else {
                i + 1
            };
            let j0 = if j < idx {
                j
            } else {
                j + 1
            };
            assert(s2[i] == s[i0]);
            assert(s2[j] == s[j0]);
        }
        assert forall|v: int| 0 <= v <= n - 1 implies s2.contains(#[trigger] (v as i32)) by {
            let k = choose|k: int| 0 <= k < s.len() && s[k] == v as i32;
            assert(s[k] != s[idx]);
            if k < idx {
                assert(s2[k] == s[k]);
            } else {
                assert(s2[k - 1] == s[k]);
            }
        }
        lemma_distinct_all_present_min_len(s2, n - 1);
    }
}

/// Collision-free ID allocation: the live windows' logical IDs are pairwise
/// distinct, so however many windows are created, each carries an ID all its
/// own.
pub proof fn lemma_ids_collision_free(m: &WebViewManager)
    requires
        m.wf(),
    ensures
        forall|i: int, j: int|
            0 <= i < j < m.win_ids().len() ==> m.win_ids()[i] != m.win_ids()[j],
{
    assert forall|i: int, j: int|
        0 <= i < j < m.win_ids().len() implies m.win_ids()[i] != m.win_ids()[j] by {
        assert(m.win_ids()[i] == m.entries()[i].0);
        assert(m.win_ids()[j] == m.entries()[j].0);
    }
}

} // verus!
