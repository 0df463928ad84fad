use vstd::prelude::*;
use crate::wm::actions::ActionType;
use crate::wm::workspace::{other_than, WorkspaceView};
use crate::wm::ManagerView;

verus! {

/// No window of `a` is a window of `b`.
pub open spec fn disjoint_windows(a: Seq<u32>, b: Seq<u32>) -> bool {
    forall|w: u32| a.contains(w) ==> !b.contains(w)
}

impl ManagerView {
    /// Every window is held once: no workspace lists a window twice, and no
    /// two workspaces list the same window.
    pub open spec fn holds_once(self) -> bool {
        &&& forall|i: int|
            0 <= i < self.workspaces.len() ==> (#[trigger] self.workspaces[i]).windows.no_duplicates()
        &&& forall|i: int, j: int|
            #![trigger self.workspaces[i], self.workspaces[j]]
            0 <= i < self.workspaces.len() && 0 <= j < self.workspaces.len() && i != j
                ==> disjoint_windows(self.workspaces[i].windows, self.workspaces[j].windows)
    }

    /// No workspace holds `window`.
    pub open spec fn unmanaged(self, window: u32) -> bool {
        forall|i: int|
            0 <= i < self.workspaces.len() ==> !(#[trigger] self.workspaces[i]).windows.contains(window)
    }
}

/// Removing a window from a list without repetitions leaves a list without
/// repetitions, made of windows of the first list other than the removed one.
pub proof fn lemma_without_window_keeps_rest(windows: Seq<u32>, window: u32)
    requires
        windows.no_duplicates(),
    ensures
        windows.filter(other_than(window)).no_duplicates(),
        forall|w: u32| #[trigger]
            windows.filter(other_than(window)).contains(w) ==> windows.contains(w) && w != window,
    decreases windows.len(),
{
    let keep = other_than(window);
    reveal(Seq::filter);
    if windows.len() > 0 {
        let front = windows.drop_last();
        let last = windows.last();
        lemma_without_window_keeps_rest(front, window);
        assert forall|w: u32| #[trigger] windows.filter(keep).contains(w) implies windows.contains(w)
            && w != window by {
            let k = choose|k: int| 0 <= k < windows.filter(keep).len() && windows.filter(keep)[k] == w;
            if keep(last) && k == front.filter(keep).len() {
                assert(windows[windows.len() - 1] == w);
            } else {
                assert(front.filter(keep)[k] == w);
                assert(front.filter(keep).contains(w));
                let m = choose|m: int| 0 <= m < front.len() && front[m] == w;
                assert(windows[m] == w);
            }
        }
        if keep(last) {
            if front.filter(keep).contains(last) {
                let m = choose|m: int| 0 <= m < front.len() && front[m] == last;
                assert(windows[m] == windows[windows.len() - 1]);
            }
            assert forall|a: int, b: int|
                0 <= a < windows.filter(keep).len() && 0 <= b < windows.filter(keep).len() && a
                    != b implies windows.filter(keep)[a] != windows.filter(keep)[b] by {
                let kept = front.filter(keep);
                if a < kept.len() {
                    assert(kept.contains(kept[a]));
                }
                if b < kept.len() {
                    assert(kept.contains(kept[b]));
                }
            }
        }
    }
}

/// Promoting the focused window reorders the windows and nothing else: a
/// list without repetitions stays one, and holds the same windows.
pub proof fn lemma_promoted_same_windows(ws: WorkspaceView)
    requires
        ws.focus_valid(),
        ws.windows.no_duplicates(),
    ensures
        ws.promoted().windows.no_duplicates(),
        forall|w: u32| #[trigger] ws.promoted().windows.contains(w) <==> ws.windows.contains(w),
{
    let s = ws.windows;
    let p = ws.promoted().windows;
    let f = ws.focused;
    if s.len() > 0 {
        let source = |k: int|
            if k == 0 {
                f
            } else if k - 1 < f {
                k - 1
            } else {
                k
            };
        assert forall|k: int| 0 <= k < p.len() implies p[k] == s[source(k)] && 0 <= source(k) < s.len() by {}
        assert forall|a: int, b: int| 0 <= a < p.len() && 0 <= b < p.len() && a != b implies p[a]
            != p[b] by {
            assert(p[a] == s[source(a)] && p[b] == s[source(b)]);
            assert(source(a) != source(b));
        }
        assert forall|w: u32| #[trigger] p.contains(w) <==> s.contains(w) by {
            if p.contains(w) {
                let k = choose|k: int| 0 <= k < p.len() && p[k] == w;
                assert(s[source(k)] == w);
            }
            if s.contains(w) {
                let m = choose|m: int| 0 <= m < s.len() && s[m] == w;
                let k = if m == f {
                    0
                } else if m < f {
                    m + 1
                } else {
                    m
                };
                assert(p[k] == s[source(k)]);
                assert(p[k] == w);
            }
        }
    }
}

/// A new window in front of a list without repetitions that does not hold it
/// gives a list without repetitions, of that window and the windows before.
pub proof fn lemma_with_window_adds_one(ws: WorkspaceView, window: u32)
    requires
        ws.windows.no_duplicates(),
        !ws.windows.contains(window),
    ensures
        ws.with_window(window).windows.no_duplicates(),
        forall|w: u32| #[trigger]
            ws.with_window(window).windows.contains(w) <==> (w == window || ws.windows.contains(w)),
{
    let s = ws.windows;
    let p = ws.with_window(window).windows;
    assert forall|k: int| 0 <= k < p.len() implies p[k] == (if k == 0 {
        window
    } else {
        s[k - 1]
    }) by {}
    assert forall|a: int, b: int| 0 <= a < p.len() && 0 <= b < p.len() && a != b implies p[a]
        != p[b] by {
        if a > 0 {
            assert(s.contains(s[a - 1]));
        }
        if b > 0 {
            assert(s.contains(s[b - 1]));
        }
    }
    assert forall|w: u32| #[trigger] p.contains(w) <==> (w == window || s.contains(w)) by {
        if p.contains(w) {
            let k = choose|k: int| 0 <= k < p.len() && p[k] == w;
            if k > 0 {
                assert(s[k - 1] == w);
            }
        }
        if w == window {
            assert(p[0] == w);
        }
        if s.contains(w) {
            let m = choose|m: int| 0 <= m < s.len() && s[m] == w;
            assert(p[m + 1] == w);
        }
    }
}

/// Where a manager holds every window once, so does any other whose
/// workspaces list the same windows.
pub proof fn lemma_same_windows_hold_once(before: ManagerView, after: ManagerView)
    requires
        before.holds_once(),
        after.workspaces.len() == before.workspaces.len(),
        forall|i: int|
            0 <= i < after.workspaces.len() ==> (#[trigger] after.workspaces[i]).windows
                == before.workspaces[i].windows,
    ensures
        after.holds_once(),
{
    let n = after.workspaces.len();
    assert forall|i: int| 0 <= i < n implies (#[trigger] after.workspaces[i]).windows.no_duplicates() by {
        assert(before.workspaces[i].windows.no_duplicates());
    }
    assert forall|i: int, j: int|
        #![trigger after.workspaces[i], after.workspaces[j]]
        0 <= i < n && 0 <= j < n && i != j implies disjoint_windows(
        after.workspaces[i].windows,
        after.workspaces[j].windows,
    ) by {
        assert(disjoint_windows(before.workspaces[i].windows, before.workspaces[j].windows));
    }
}

/// A manager that holds every window once still does after a window has
/// been unmapped, and then no workspace holds that window.
pub proof fn lemma_unmapped_holds_once(wm: ManagerView, window: u32)
    requires
        wm.holds_once(),
    ensures
        wm.unmapped(window).holds_once(),
        wm.unmapped(window).unmanaged(window),
{
    let after = wm.unmapped(window);
    let n = after.workspaces.len();
    assert forall|i: int| 0 <= i < n implies {
        &&& (#[trigger] after.workspaces[i]).windows.no_duplicates()
        &&& !after.workspaces[i].windows.contains(window)
        &&& forall|w: u32| #[trigger]
            after.workspaces[i].windows.contains(w) ==> wm.workspaces[i].windows.contains(w)
    } by {
        assert(wm.workspaces[i].windows.no_duplicates());
        lemma_without_window_keeps_rest(wm.workspaces[i].windows, window);
    }
    assert forall|i: int, j: int|
        #![trigger after.workspaces[i], after.workspaces[j]]
        0 <= i < n && 0 <= j < n && i != j implies disjoint_windows(
        after.workspaces[i].windows,
        after.workspaces[j].windows,
    ) by {
        assert(disjoint_windows(wm.workspaces[i].windows, wm.workspaces[j].windows));
    }
}

/// A button press moves no window: a manager that holds every window once
/// still does after it.
pub proof fn lemma_pressed_holds_once(wm: ManagerView, window: u32, root: u32)
    requires
        wm.holds_once(),
    ensures
        wm.pressed(window, root).holds_once(),
{
    lemma_same_windows_hold_once(wm, wm.pressed(window, root));
}

/// A manager that holds every window once still does after it has taken in
/// a window that no workspace held.
pub proof fn lemma_mapped_holds_once(wm: ManagerView, window: u32)
    requires
        wm.wf(),
        wm.holds_once(),
        wm.unmanaged(window),
    ensures
        wm.mapped(window).holds_once(),
{
    let after = wm.mapped(window);
    let n = after.workspaces.len();
    lemma_with_window_adds_one(wm.current(), window);
    assert forall|i: int| 0 <= i < n implies (#[trigger] after.workspaces[i]).windows.no_duplicates() by {
        assert(wm.workspaces[i].windows.no_duplicates());
    }
    assert forall|i: int, j: int|
        #![trigger after.workspaces[i], after.workspaces[j]]
        0 <= i < n && 0 <= j < n && i != j implies disjoint_windows(
        after.workspaces[i].windows,
        after.workspaces[j].windows,
    ) by {
        assert(disjoint_windows(wm.workspaces[i].windows, wm.workspaces[j].windows));
        assert(!wm.workspaces[i].windows.contains(window));
        assert(!wm.workspaces[j].windows.contains(window));
    }
}

/// A manager that holds every window once still does after any action: a
/// window reaches another workspace only by leaving the one it was in.
pub proof fn lemma_action_holds_once(wm: ManagerView, action: ActionType)
    requires
        wm.wf(),
        wm.holds_once(),
    ensures
        wm.after(action).holds_once(),
{
    let after = wm.after(action);
    let n = wm.workspaces.len();
    match action {
        ActionType::PromoteWindow => {
            assert(wm.current().windows.no_duplicates());
            lemma_promoted_same_windows(wm.current());
            assert forall|i: int| 0 <= i < n implies (#[trigger] after.workspaces[i]).windows.no_duplicates() by {
                assert(wm.workspaces[i].windows.no_duplicates());
            }
            assert forall|i: int, j: int|
                #![trigger after.workspaces[i], after.workspaces[j]]
                0 <= i < n && 0 <= j < n && i != j implies disjoint_windows(
                after.workspaces[i].windows,
                after.workspaces[j].windows,
            ) by {
                assert(disjoint_windows(wm.workspaces[i].windows, wm.workspaces[j].windows));
            }
        },
        ActionType::MoveWindow => {
            if wm.can_move() {
                let ws = wm.current();
                let window = ws.windows[ws.focused];
                assert(ws.windows.contains(window));
                assert forall|i: int| 0 <= i < n && i != wm.focused implies !(
                #[trigger] wm.workspaces[i]).windows.contains(window) by {
                    assert(disjoint_windows(
                        wm.workspaces[wm.focused].windows,
                        wm.workspaces[i].windows,
                    ));
                }
                lemma_unmapped_holds_once(wm, window);
                let gone = wm.unmapped(window);
                let lifted = wm.lifted();
                assert forall|i: int| 0 <= i < n implies (#[trigger] lifted.workspaces[i]).windows
                    == gone.workspaces[i].windows by {}
                lemma_same_windows_hold_once(gone, lifted);
                let switched = lifted.next_screen();
                assert forall|i: int| 0 <= i < n implies (#[trigger] switched.workspaces[i]).windows
                    == lifted.workspaces[i].windows by {}
                lemma_same_windows_hold_once(lifted, switched);
                assert(switched.unmanaged(window)) by {
                    assert forall|i: int| 0 <= i < n implies !(
                    #[trigger] switched.workspaces[i]).windows.contains(window) by {
                        assert(!gone.workspaces[i].windows.contains(window));
                    }
                }
                assert(switched.wf());
                lemma_mapped_holds_once(switched, window);
            }
        },
        _ => {
            assert forall|i: int| 0 <= i < n implies (#[trigger] after.workspaces[i]).windows
                == wm.workspaces[i].windows by {}
            lemma_same_windows_hold_once(wm, after);
        },
    }
}

} // verus!
