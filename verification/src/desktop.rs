//! A plain-data snapshot of the desktop's window system.
//!
//! The discovery engine never talks to the OS directly: a platform adapter
//! (outside this library) queries the live window system and records what it
//! saw in a [`Desktop`] value — every attribute the engine reads, for every
//! top-level window, in desktop enumeration order. A window whose handle
//! died mid-scan simply has no entry here; a window whose client-rectangle
//! query failed carries `None` for its rectangle, and likewise for titles.
//! This mirrors the tri-state "value / not found / query failed" shape of
//! every OS accessor, collapsed to what the engine can actually use.

use vstd::prelude::*;

verus! {

/// A window's client-area rectangle as the OS reports it: only the extent
/// matters to the engine (`right` and `bottom` of a rectangle whose origin
/// is the client area's own top-left corner).
pub struct ClientArea {
    pub right: i32,
    pub bottom: i32,
}

/// An immediate child of a top-level window, as seen by a parent-scoped
/// window enumeration. Only what shell-host resolution reads is recorded:
/// the child's identity, its owning process and thread, and its title.
pub struct ChildWindow {
    /// OS-assigned handle; never zero for a live window.
    pub handle: u64,
    /// Id of the process that owns the child window.
    pub process_id: u32,
    /// Id of the thread that created the child window.
    pub thread_id: u32,
    /// Display title; `None` when the title query fails or the title is empty.
    pub title: Option<String>,
}

/// One top-level window together with every attribute the engine queries.
pub struct TopWindow {
    /// OS-assigned handle; never zero for a live window.
    pub handle: u64,
    /// Whether the window is currently visible.
    pub visible: bool,
    /// Whether the window is minimized (iconic).
    pub minimized: bool,
    /// Whether the window is cloaked: it exists but is not composited onto
    /// any display. A failed cloaking probe is recorded as `false` — the
    /// probe fails open, since cloaking is only an exclusion signal.
    pub cloaked: bool,
    /// Whether the extended style carries the tool-window bit.
    pub tool_window: bool,
    /// Whether the basic style carries the child-window bit.
    pub child_style: bool,
    /// The client-area rectangle; `None` when that query fails.
    pub client_area: Option<ClientArea>,
    /// The window's class name.
    pub class_name: String,
    /// Id of the process that owns the window.
    pub process_id: u32,
    /// Id of the thread that created the window.
    pub thread_id: u32,
    /// Display title; `None` when the title query fails or the title is empty.
    pub title: Option<String>,
    /// Immediate child windows, in OS child enumeration order.
    pub children: Vec<ChildWindow>,
}

/// The snapshot handed to the engine: all top-level windows in desktop
/// enumeration order, the calling process's own console window, and whether
/// the explicit top-level find query (the primary traversal primitive) is
/// available on this system.
pub struct Desktop {
    /// Top-level windows in desktop enumeration order.
    pub top: Vec<TopWindow>,
    /// Handle of the calling process's own console window; zero when the
    /// process has no console.
    pub console: u64,
    /// Whether the explicit "find next top-level window" primitive works;
    /// when it does not, traversal falls back to sibling stepping.
    pub find_ex_available: bool,
}

impl Desktop {
    /// What every honestly-recorded snapshot satisfies: live windows have
    /// nonzero handles, and no two top-level windows share a handle.
    pub open spec fn wf(&self) -> bool {
        &&& forall|i: int|
            0 <= i < self.top@.len() ==> (#[trigger] self.top@[i]).handle != 0
        &&& forall|i: int, j: int|
            #![trigger self.top@[i], self.top@[j]]
            0 <= i < self.top@.len() && 0 <= j < self.top@.len() && i != j
                ==> self.top@[i].handle != self.top@[j].handle
        &&& forall|i: int, a: int|
            0 <= i < self.top@.len() && 0 <= a < self.top@[i].children@.len()
                ==> (#[trigger] self.top@[i].children@[a]).handle != 0
    }

    /// Strengthens [`Desktop::wf`]: handles are unique across the whole
    /// snapshot, children included, as OS window handles are.
    pub open spec fn distinct_handles(&self) -> bool {
        &&& self.wf()
        &&& forall|i: int, j: int, a: int|
            #![trigger self.top@[i], self.top@[j].children@[a]]
            0 <= i < self.top@.len() && 0 <= j < self.top@.len()
                && 0 <= a < self.top@[j].children@.len()
                ==> self.top@[i].handle != self.top@[j].children@[a].handle
        &&& forall|i: int, a: int, j: int, b: int|
            #![trigger self.top@[i].children@[a], self.top@[j].children@[b]]
            0 <= i < self.top@.len() && 0 <= j < self.top@.len()
                && 0 <= a < self.top@[i].children@.len()
                && 0 <= b < self.top@[j].children@.len() && (i != j || a != b)
                ==> self.top@[i].children@[a].handle != self.top@[j].children@[b].handle
    }
}

/// Index of the first top-level window with the given handle, or -1.
pub open spec fn spec_top_index_of(tops: Seq<TopWindow>, handle: u64) -> int
    decreases tops.len(),
{
    if tops.len() == 0 {
        -1
    } else if tops[0].handle == handle {
        0
    } else {
        let rest = spec_top_index_of(tops.drop_first(), handle);
        if rest < 0 {
            -1
        } else {
            rest + 1
        }
    }
}

/// `spec_top_index_of` finds exactly the first match.
pub proof fn lemma_top_index_of(tops: Seq<TopWindow>, handle: u64)
    ensures
        -1 <= spec_top_index_of(tops, handle) < tops.len(),
        spec_top_index_of(tops, handle) >= 0 ==> tops[spec_top_index_of(tops, handle)].handle
            == handle,
        forall|j: int|
            0 <= j < tops.len() && (#[trigger] tops[j]).handle == handle ==> spec_top_index_of(
                tops,
                handle,
            ) >= 0 && spec_top_index_of(tops, handle) <= j,
    decreases tops.len(),
{
    if tops.len() > 0 && tops[0].handle != handle {
        lemma_top_index_of(tops.drop_first(), handle);
        assert forall|j: int|
            0 <= j < tops.len() && (#[trigger] tops[j]).handle == handle implies spec_top_index_of(
            tops,
            handle,
        ) >= 0 && spec_top_index_of(tops, handle) <= j by {
            assert(tops.drop_first()[j - 1] == tops[j]);
        }
        if spec_top_index_of(tops.drop_first(), handle) >= 0 {
            assert(tops[spec_top_index_of(tops, handle)] == tops.drop_first()[spec_top_index_of(
                tops.drop_first(),
                handle,
            )]);
        }
    }
}

/// The window with the given handle, when the snapshot holds one.
pub open spec fn spec_window_of(desktop: Desktop, handle: u64) -> Option<TopWindow> {
    let i = spec_top_index_of(desktop.top@, handle);
    if i >= 0 {
        Some(desktop.top@[i])
    } else {
        None
    }
}

/// Looks a handle up among the top-level windows.
pub(crate) fn find_top(desktop: &Desktop, handle: u64) -> (r: Option<usize>)
    ensures
        match r {
            Some(u) => u as int == spec_top_index_of(desktop.top@, handle) && (u as int)
                < desktop.top@.len() && desktop.top@[u as int].handle == handle,
            None => spec_top_index_of(desktop.top@, handle) < 0,
        },
{
    let n = desktop.top.len();
    let mut idx: usize = 0;
    while idx < n
        invariant
            n == desktop.top@.len(),
            idx <= n,
            forall|j: int| 0 <= j < idx ==> (#[trigger] desktop.top@[j]).handle != handle,
        decreases n - idx,
    {
        if desktop.top[idx].handle == handle {
            proof {
                lemma_top_index_of(desktop.top@, handle);
                let s = spec_top_index_of(desktop.top@, handle);
                assert(desktop.top@[idx as int].handle == handle);
                if 0 <= s < idx as int {
                    assert(desktop.top@[s].handle != handle);
                }
            }
            return Some(idx);
        }
        idx += 1;
    }
    proof {
        lemma_top_index_of(desktop.top@, handle);
        let s = spec_top_index_of(desktop.top@, handle);
        if s >= 0 {
            assert(desktop.top@[s].handle != handle);
        }
    }
    None
}

/// Index of the first child with the given handle, or -1.
pub open spec fn spec_child_index_of(children: Seq<ChildWindow>, handle: u64) -> int
    decreases children.len(),
{
    if children.len() == 0 {
        -1
    } else if children[0].handle == handle {
        0
    } else {
        let rest = spec_child_index_of(children.drop_first(), handle);
        if rest < 0 {
            -1
        } else {
            rest + 1
        }
    }
}

/// `spec_child_index_of` finds exactly the first match.
pub proof fn lemma_child_index_of(children: Seq<ChildWindow>, handle: u64)
    ensures
        -1 <= spec_child_index_of(children, handle) < children.len(),
        spec_child_index_of(children, handle) >= 0 ==> children[spec_child_index_of(
            children,
            handle,
        )].handle == handle,
        forall|a: int|
            0 <= a < children.len() && (#[trigger] children[a]).handle == handle
                ==> spec_child_index_of(children, handle) >= 0 && spec_child_index_of(
                children,
                handle,
            ) <= a,
    decreases children.len(),
{
    if children.len() > 0 && children[0].handle != handle {
        lemma_child_index_of(children.drop_first(), handle);
        assert forall|a: int|
            0 <= a < children.len() && (#[trigger] children[a]).handle == handle
            implies spec_child_index_of(children, handle) >= 0 && spec_child_index_of(
            children,
            handle,
        ) <= a by {
            assert(children.drop_first()[a - 1] == children[a]);
        }
        if spec_child_index_of(children.drop_first(), handle) >= 0 {
            assert(children[spec_child_index_of(children, handle)] == children.drop_first()[
                spec_child_index_of(children.drop_first(), handle)]);
        }
    }
}

/// Index of the first top-level window having a child with the given
/// handle, or -1.
pub open spec fn spec_owner_index(tops: Seq<TopWindow>, handle: u64) -> int
    decreases tops.len(),
{
    if tops.len() == 0 {
        -1
    } else if spec_child_index_of(tops[0].children@, handle) >= 0 {
        0
    } else {
        let rest = spec_owner_index(tops.drop_first(), handle);
        if rest < 0 {
            -1
        } else {
            rest + 1
        }
    }
}

/// `spec_owner_index` finds exactly the first top-level window with a
/// matching child.
pub proof fn lemma_owner_index(tops: Seq<TopWindow>, handle: u64)
    ensures
        -1 <= spec_owner_index(tops, handle) < tops.len(),
        spec_owner_index(tops, handle) >= 0 ==> spec_child_index_of(
            tops[spec_owner_index(tops, handle)].children@,
            handle,
        ) >= 0,
        forall|j: int|
            0 <= j < tops.len() && spec_child_index_of((#[trigger] tops[j]).children@, handle)
                >= 0 ==> spec_owner_index(tops, handle) >= 0 && spec_owner_index(tops, handle)
                <= j,
    decreases tops.len(),
{
    if tops.len() > 0 && spec_child_index_of(tops[0].children@, handle) < 0 {
        lemma_owner_index(tops.drop_first(), handle);
        assert forall|j: int|
            0 <= j < tops.len() && spec_child_index_of((#[trigger] tops[j]).children@, handle)
                >= 0 implies spec_owner_index(tops, handle) >= 0 && spec_owner_index(
            tops,
            handle,
        ) <= j by {
            assert(tops.drop_first()[j - 1] == tops[j]);
        }
        if spec_owner_index(tops.drop_first(), handle) >= 0 {
            assert(tops[spec_owner_index(tops, handle)] == tops.drop_first()[spec_owner_index(
                tops.drop_first(),
                handle,
            )]);
        }
    }
}

/// The recorded title of the window with this handle — a top-level window
/// or a child — when the snapshot holds one and its title query succeeded.
pub open spec fn spec_title_of(desktop: Desktop, handle: u64) -> Option<Seq<char>> {
    let t = spec_top_index_of(desktop.top@, handle);
    let o = spec_owner_index(desktop.top@, handle);
    if t >= 0 {
        match desktop.top@[t].title {
            Some(s) => Some(s@),
            None => None,
        }
    } else if o >= 0 {
        match desktop.top@[o].children@[spec_child_index_of(
            desktop.top@[o].children@,
            handle,
        )].title {
            Some(s) => Some(s@),
            None => None,
        }
    } else {
        None
    }
}

/// The owning process id and creating thread id of the window with this
/// handle — a top-level window or a child — when the snapshot holds one.
pub open spec fn spec_proc_of(desktop: Desktop, handle: u64) -> Option<(u32, u32)> {
    let t = spec_top_index_of(desktop.top@, handle);
    let o = spec_owner_index(desktop.top@, handle);
    if t >= 0 {
        Some((desktop.top@[t].process_id, desktop.top@[t].thread_id))
    } else if o >= 0 {
        let c = desktop.top@[o].children@[spec_child_index_of(
            desktop.top@[o].children@,
            handle,
        )];
        Some((c.process_id, c.thread_id))
    } else {
        None
    }
}

/// Looks a handle up among a window's children.
pub(crate) fn find_child(children: &Vec<ChildWindow>, handle: u64) -> (r: Option<usize>)
    ensures
        match r {
            Some(u) => u as int == spec_child_index_of(children@, handle) && (u as int)
                < children@.len() && children@[u as int].handle == handle,
            None => spec_child_index_of(children@, handle) < 0,
        },
{
    let n = children.len();
    let mut idx: usize = 0;
    while idx < n
        invariant
            n == children@.len(),
            idx <= n,
            forall|a: int| 0 <= a < idx ==> (#[trigger] children@[a]).handle != handle,
        decreases n - idx,
    {
        if children[idx].handle == handle {
            proof {
                lemma_child_index_of(children@, handle);
                let s = spec_child_index_of(children@, handle);
                assert(children@[idx as int].handle == handle);
                if 0 <= s < idx as int {
                    assert(children@[s].handle != handle);
                }
            }
            return Some(idx);
        }
        idx += 1;
    }
    proof {
        lemma_child_index_of(children@, handle);
        let s = spec_child_index_of(children@, handle);
        if s >= 0 {
            assert(children@[s].handle != handle);
        }
    }
    None
}

/// Looks a handle up among the children of every top-level window.
pub(crate) fn find_owner(desktop: &Desktop, handle: u64) -> (r: Option<(usize, usize)>)
    ensures
        match r {
            Some(p) => p.0 as int == spec_owner_index(desktop.top@, handle) && (p.0 as int)
                < desktop.top@.len() && p.1 as int == spec_child_index_of(
                desktop.top@[p.0 as int].children@,
                handle,
            ) && (p.1 as int) < desktop.top@[p.0 as int].children@.len(),
            None => spec_owner_index(desktop.top@, handle) < 0,
        },
{
    let n = desktop.top.len();
    let mut idx: usize = 0;
    while idx < n
        invariant
            n == desktop.top@.len(),
            idx <= n,
            forall|j: int|
                0 <= j < idx ==> spec_child_index_of(
                    (#[trigger] desktop.top@[j]).children@,
                    handle,
                ) < 0,
        decreases n - idx,
    {
        match find_child(&desktop.top[idx].children, handle) {
            Some(a) => {
                proof {
                    lemma_owner_index(desktop.top@, handle);
                    let s = spec_owner_index(desktop.top@, handle);
                    if 0 <= s < idx as int {
                        assert(spec_child_index_of(desktop.top@[s].children@, handle) < 0);
                    }
                }
                return Some((idx, a));
            },
            None => {},
        }
        idx += 1;
    }
    proof {
        lemma_owner_index(desktop.top@, handle);
        let s = spec_owner_index(desktop.top@, handle);
        if s >= 0 {
            assert(spec_child_index_of(desktop.top@[s].children@, handle) < 0);
        }
    }
    None
}

/// Stands for the explicit top-level find query on the desktop window (the
/// primary traversal primitive): with `after == 0` the first top-level
/// window, otherwise the one following `after` in desktop order. Yields
/// nothing when the snapshot records the primitive as unavailable, when
/// `after` is not a live top-level window, or past the last window.
pub fn find_window_ex_after(desktop: &Desktop, after: u64) -> (r: Option<u64>)
    ensures
        !desktop.find_ex_available ==> r == None::<u64>,
        desktop.find_ex_available && after == 0 ==> r == (if desktop.top@.len() > 0 {
            Some(desktop.top@[0].handle)
        } else {
            None
        }),
        desktop.find_ex_available && after != 0 ==> ({
            let i = spec_top_index_of(desktop.top@, after);
            r == (if i >= 0 && i + 1 < desktop.top@.len() {
                Some(desktop.top@[i + 1].handle)
            } else {
                None
            })
        }),
{
    if !desktop.find_ex_available {
        return None;
    }
    if after == 0 {
        if desktop.top.len() > 0 {
            return Some(desktop.top[0].handle);
        }
        return None;
    }
    match find_top(desktop, after) {
        Some(i) => {
            let n = desktop.top.len();
            if i + 1 < n {
                Some(desktop.top[i + 1].handle)
            } else {
                None
            }
        },
        None => None,
    }
}

/// Stands for the sibling-stepping primitive (the fallback strategy): the
/// top-level window following `handle` in desktop order, or nothing when
/// `handle` is not a live top-level window or is the last one.
pub fn get_window_next(desktop: &Desktop, handle: u64) -> (r: Option<u64>)
    ensures
        handle == 0 ==> r == None::<u64>,
        handle != 0 ==> ({
            let i = spec_top_index_of(desktop.top@, handle);
            r == (if i >= 0 && i + 1 < desktop.top@.len() {
                Some(desktop.top@[i + 1].handle)
            } else {
                None
            })
        }),
{
    if handle == 0 {
        return None;
    }
    match find_top(desktop, handle) {
        Some(i) => {
            let n = desktop.top.len();
            if i + 1 < n {
                Some(desktop.top[i + 1].handle)
            } else {
                None
            }
        },
        None => None,
    }
}

/// Stands for asking the desktop window for its first child: the first
/// top-level window in desktop order. Available under either strategy.
pub fn get_desktop_first_child(desktop: &Desktop) -> (r: Option<u64>)
    ensures
        r == (if desktop.top@.len() > 0 {
            Some(desktop.top@[0].handle)
        } else {
            None
        }),
{
    if desktop.top.len() > 0 {
        Some(desktop.top[0].handle)
    } else {
        None
    }
}

} // verus!
