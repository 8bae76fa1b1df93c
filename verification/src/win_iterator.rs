//! The traversal engine: walks the top-level windows in desktop order,
//! filters them through the validator, and resolves shell-host windows to
//! their externally-owned content child.

use vstd::prelude::*;

verus! {

use vstd::string::StringExecFns;
use crate::desktop::{
    Desktop,
    TopWindow,
    ChildWindow,
    spec_top_index_of,
    spec_window_of,
    spec_title_of,
    spec_proc_of,
    lemma_top_index_of,
    find_top,
    find_owner,
    find_window_ex_after,
    get_window_next,
    get_desktop_first_child,
};
use crate::validator::{WindowSearchMode, spec_window_valid, is_window_valid};

/// The process and thread owning a window; used only to compare ownership
/// between a shell-host and its children.
pub struct ProcessInfo {
    pub process_id: u32,
    pub thread_id: u32,
}

/// The owning process id and creating thread id of a window, or `None`
/// when the handle is not live (the query fails).
pub fn get_thread_proc_id(desktop: &Desktop, wnd: u64) -> (r: Option<ProcessInfo>)
    ensures
        match spec_proc_of(*desktop, wnd) {
            Some(p) => r is Some && r->0.process_id == p.0 && r->0.thread_id == p.1,
            None => r is None,
        },
{
    match find_top(desktop, wnd) {
        Some(i) => Some(
            ProcessInfo { process_id: desktop.top[i].process_id, thread_id: desktop.top[i].thread_id },
        ),
        None => {
            match find_owner(desktop, wnd) {
                Some(p) => {
                    let c = &desktop.top[p.0].children[p.1];
                    Some(ProcessInfo { process_id: c.process_id, thread_id: c.thread_id })
                },
                None => None,
            }
        },
    }
}

/// The class name of a top-level window, or `None` when the handle is not
/// a live top-level window (the query fails).
pub fn get_window_class(desktop: &Desktop, handle: u64) -> (r: Option<String>)
    ensures
        match spec_window_of(*desktop, handle) {
            Some(w) => r is Some && r->0@ == w.class_name@,
            None => r is None,
        },
{
    match find_top(desktop, handle) {
        Some(i) => Some(desktop.top[i].class_name.clone()),
        None => None,
    }
}

/// Whether a window belongs to the fixed application-frame class: a
/// shell-host whose visible content lives in a child window owned by a
/// different process.
pub open spec fn spec_is_shell_host(w: TopWindow) -> bool {
    w.class_name@ == "ApplicationFrameWindow"@
}

/// [`spec_is_shell_host`] looked up by handle; an invalid or vanished
/// handle is not a shell-host.
pub open spec fn spec_shell_host_at(desktop: Desktop, handle: u64) -> bool {
    handle != 0 && match spec_window_of(desktop, handle) {
        Some(w) => spec_is_shell_host(w),
        None => false,
    }
}

/// Whether the window is a shell-host: its class name matches the known
/// application-frame class. A vanished handle is reported as not one.
pub fn is_uwp_window(desktop: &Desktop, hwnd: u64) -> (r: bool)
    ensures
        r == spec_shell_host_at(*desktop, hwnd),
{
    if hwnd == 0 {
        return false;
    }
    let class = match get_window_class(desktop, hwnd) {
        Some(c) => c,
        None => {
            return false;
        },
    };
    let frame_class: String = "ApplicationFrameWindow".to_owned();
    class == frame_class
}

/// Index of the first child owned by a different process than the host, or
/// -1 when the host has no children or all of them are its own.
pub open spec fn spec_foreign_child_index(children: Seq<ChildWindow>, host_pid: u32) -> int
    decreases children.len(),
{
    if children.len() == 0 {
        -1
    } else if children[0].process_id != host_pid {
        0
    } else {
        let rest = spec_foreign_child_index(children.drop_first(), host_pid);
        if rest < 0 {
            -1
        } else {
            rest + 1
        }
    }
}

/// `spec_foreign_child_index` finds exactly the first differently-owned
/// child.
pub proof fn lemma_foreign_child_index(children: Seq<ChildWindow>, host_pid: u32)
    ensures
        -1 <= spec_foreign_child_index(children, host_pid) < children.len(),
        spec_foreign_child_index(children, host_pid) >= 0 ==> children[spec_foreign_child_index(
            children,
            host_pid,
        )].process_id != host_pid,
        forall|a: int|
            0 <= a < children.len() && (#[trigger] children[a]).process_id != host_pid
                ==> spec_foreign_child_index(children, host_pid) >= 0
                && spec_foreign_child_index(children, host_pid) <= a,
    decreases children.len(),
{
    if children.len() > 0 && children[0].process_id == host_pid {
        lemma_foreign_child_index(children.drop_first(), host_pid);
        assert forall|a: int|
            0 <= a < children.len() && (#[trigger] children[a]).process_id != host_pid
            implies spec_foreign_child_index(children, host_pid) >= 0
            && spec_foreign_child_index(children, host_pid) <= a by {
            assert(children.drop_first()[a - 1] == children[a]);
        }
        if spec_foreign_child_index(children.drop_first(), host_pid) >= 0 {
            assert(children[spec_foreign_child_index(children, host_pid)]
                == children.drop_first()[spec_foreign_child_index(
                children.drop_first(),
                host_pid,
            )]);
        }
    }
}

/// The handle a shell-host resolves to, when it resolves at all.
pub open spec fn spec_resolved_child(w: TopWindow) -> Option<u64> {
    let f = spec_foreign_child_index(w.children@, w.process_id);
    if f >= 0 {
        Some(w.children@[f].handle)
    } else {
        None
    }
}

/// The first immediate child of `parent` owned by a different process than
/// `parent` itself: the externally-hosted content window of a shell-host.
/// `None` when `parent` is not a live top-level window, has no children,
/// or owns all of its children itself.
pub fn get_uwp_actual_window(desktop: &Desktop, parent: u64) -> (r: Option<u64>)
    ensures
        match spec_window_of(*desktop, parent) {
            Some(w) => r == spec_resolved_child(w),
            None => r == None::<u64>,
        },
{
    let parent_id = match get_thread_proc_id(desktop, parent) {
        Some(p) => p.process_id,
        None => {
            return None;
        },
    };
    let i = match find_top(desktop, parent) {
        Some(i) => i,
        None => {
            return None;
        },
    };
    let children = &desktop.top[i].children;
    let n = children.len();
    let mut a: usize = 0;
    while a < n
        invariant
            n == children@.len(),
            a <= n,
            parent_id == desktop.top@[spec_top_index_of(desktop.top@, parent)].process_id,
            i as int == spec_top_index_of(desktop.top@, parent),
            children == &desktop.top@[i as int].children,
            forall|b: int| 0 <= b < a ==> (#[trigger] children@[b]).process_id == parent_id,
        decreases n - a,
    {
        let child = &children[a];
        if child.process_id != parent_id {
            proof {
                lemma_foreign_child_index(children@, parent_id);
                let s = spec_foreign_child_index(children@, parent_id);
                assert(children@[a as int].process_id != parent_id);
                if 0 <= s < a as int {
                    assert(children@[s].process_id == parent_id);
                }
            }
            return Some(child.handle);
        }
        a += 1;
    }
    proof {
        lemma_foreign_child_index(children@, parent_id);
        let s = spec_foreign_child_index(children@, parent_id);
        if s >= 0 {
            assert(children@[s].process_id == parent_id);
        }
    }
    None
}

/// Whether the traversal will emit anything for this window: it must pass
/// the validator, and a shell-host must moreover resolve to a foreign
/// child — a host with no such child contributes nothing to any pass.
pub open spec fn spec_emits(w: TopWindow, mode: WindowSearchMode) -> bool {
    spec_window_valid(w, mode) && (spec_is_shell_host(w) ==> spec_resolved_child(w) is Some)
}

/// The identity the traversal emits for this window: the window itself,
/// or its resolved content child when it is a shell-host.
pub open spec fn spec_emitted_handle(w: TopWindow) -> u64 {
    if spec_is_shell_host(w) {
        spec_resolved_child(w)->0
    } else {
        w.handle
    }
}

/// First index at or after `i` whose window the traversal emits; the
/// sequence length when no such window remains (or `i` is out of range).
pub open spec fn spec_next_emit(tops: Seq<TopWindow>, mode: WindowSearchMode, i: int) -> int
    decreases tops.len() - i,
{
    if i < 0 || i >= tops.len() {
        tops.len() as int
    } else if spec_emits(tops[i], mode) {
        i
    } else {
        spec_next_emit(tops, mode, i + 1)
    }
}

/// `spec_next_emit` lands on the first emitting window at or after `i`.
pub proof fn lemma_next_emit(tops: Seq<TopWindow>, mode: WindowSearchMode, i: int)
    requires
        0 <= i <= tops.len(),
    ensures
        i <= spec_next_emit(tops, mode, i) <= tops.len(),
        spec_next_emit(tops, mode, i) < tops.len() ==> spec_emits(
            tops[spec_next_emit(tops, mode, i)],
            mode,
        ),
        forall|j: int|
            i <= j < spec_next_emit(tops, mode, i) ==> !spec_emits(#[trigger] tops[j], mode),
    decreases tops.len() - i,
{
    if i < tops.len() && !spec_emits(tops[i], mode) {
        lemma_next_emit(tops, mode, i + 1);
    }
}

/// Handle the next traversal step resumes from: the pending parent when
/// one is held, else the current window (zero when there is none).
pub open spec fn spec_resume_handle(window: Option<u64>, parent: Option<u64>) -> u64 {
    if parent is Some && parent->0 != 0 {
        parent->0
    } else if window is Some {
        window->0
    } else {
        0
    }
}

/// The pending-parent slot after the take-and-clear step at the head of a
/// traversal step.
pub open spec fn spec_parent_taken(parent: Option<u64>) -> Option<u64> {
    if parent is Some && parent->0 != 0 {
        None
    } else {
        parent
    }
}

/// Index from which the advance loop scans when stepping away from handle
/// `h`, or -1 when the very first advance step already yields no window.
pub open spec fn spec_scan_start(desktop: Desktop, h: u64, use_find_window_ex: bool) -> int {
    if use_find_window_ex && !desktop.find_ex_available {
        -1
    } else if h == 0 {
        if use_find_window_ex {
            0
        } else {
            -1
        }
    } else {
        let i = spec_top_index_of(desktop.top@, h);
        if i < 0 {
            -1
        } else {
            i + 1
        }
    }
}

/// One advance step of the active strategy: the top-level window at the
/// current scan position, or zero when none remains.
fn advance_window(desktop: &Desktop, h: u64, use_find_window_ex: bool) -> (r: u64)
    requires
        desktop.wf(),
    ensures
        ({
            let p = spec_scan_start(*desktop, h, use_find_window_ex);
            if 0 <= p < desktop.top@.len() {
                r == desktop.top@[p].handle && r != 0 && spec_scan_start(
                    *desktop,
                    r,
                    use_find_window_ex,
                ) == p + 1
            } else {
                r == 0
            }
        }),
{
    let next = if use_find_window_ex {
        find_window_ex_after(desktop, h)
    } else {
        get_window_next(desktop, h)
    };
    proof {
        let p = spec_scan_start(*desktop, h, use_find_window_ex);
        if 0 <= p < desktop.top@.len() {
            lemma_top_index_of(desktop.top@, desktop.top@[p].handle);
            let s = spec_top_index_of(desktop.top@, desktop.top@[p].handle);
            if s != p {
                assert(desktop.top@[s].handle != desktop.top@[p].handle);
            }
            assert(s == p);
            assert(desktop.top@[p].handle != 0);
        }
        if h != 0 {
            lemma_top_index_of(desktop.top@, h);
        }
    }
    match next {
        Some(w) => w,
        None => 0,
    }
}

/// Whether the traversal accepts this candidate: it passes the validator
/// and, when it is a shell-host, resolves to a foreign content child.
fn is_accepted(desktop: &Desktop, handle: u64, mode: WindowSearchMode) -> (r: bool)
    requires
        desktop.wf(),
    ensures
        r == (match spec_window_of(*desktop, handle) {
            Some(w) => spec_emits(w, mode),
            None => false,
        }),
{
    proof {
        lemma_top_index_of(desktop.top@, handle);
    }
    if !is_window_valid(desktop, handle, mode) {
        return false;
    }
    if is_uwp_window(desktop, handle) {
        match get_uwp_actual_window(desktop, handle) {
            Some(_) => true,
            None => false,
        }
    } else {
        true
    }
}

/// Advances the traversal one accepted candidate forward.
///
/// When the pending-parent slot holds a shell-host, traversal resumes from
/// that host (so its later siblings are still visited) and the slot is
/// cleared. The active strategy's primitive then steps through desktop
/// order until a window is accepted or none remains; an accepted
/// shell-host is emitted as its resolved content child, with the host
/// itself left in the pending-parent slot.
pub fn next_window(
    desktop: &Desktop,
    window: Option<u64>,
    mode: WindowSearchMode,
    parent: &mut Option<u64>,
    use_find_window_ex: bool,
) -> (r: Option<u64>)
    requires
        desktop.wf(),
    ensures
        ({
            let start = spec_scan_start(
                *desktop,
                spec_resume_handle(window, *old(parent)),
                use_find_window_ex,
            );
            let cleared = spec_parent_taken(*old(parent));
            let k = spec_next_emit(desktop.top@, mode, start);
            if k >= desktop.top@.len() {
                r == None::<u64> && *final(parent) == cleared
            } else {
                r == Some(spec_emitted_handle(desktop.top@[k])) && *final(parent) == (
                if spec_is_shell_host(desktop.top@[k]) {
                    Some(desktop.top@[k].handle)
                } else {
                    cleared
                })
            }
        }),
{
    let mut cur: u64 = match window {
        Some(h) => h,
        None => 0,
    };
    let parent_live = match *parent {
        Some(p) => p != 0,
        None => false,
    };
    if parent_live {
        cur = match *parent {
            Some(p) => p,
            None => 0,
        };
        *parent = None;
    }
    let ghost cleared = *parent;
    let ghost start = spec_scan_start(*desktop, cur, use_find_window_ex);
    let ghost kk = spec_next_emit(desktop.top@, mode, start);
    proof {
        if 0 <= start <= desktop.top@.len() {
            lemma_next_emit(desktop.top@, mode, start);
        }
        assert(0 <= kk <= desktop.top@.len());
    }
    loop
        invariant_except_break
            spec_next_emit(
                desktop.top@,
                mode,
                spec_scan_start(*desktop, cur, use_find_window_ex),
            ) == kk,
        invariant
            desktop.wf(),
            *parent == cleared,
            kk == spec_next_emit(desktop.top@, mode, start),
            0 <= kk <= desktop.top@.len(),
        ensures
            if kk < desktop.top@.len() {
                cur == desktop.top@[kk].handle && cur != 0 && kk == spec_top_index_of(
                    desktop.top@,
                    cur,
                )
            } else {
                cur == 0
            },
        decreases desktop.top@.len() - spec_scan_start(*desktop, cur, use_find_window_ex),
    {
        let ghost p = spec_scan_start(*desktop, cur, use_find_window_ex);
        cur = advance_window(desktop, cur, use_find_window_ex);
        if cur == 0 {
            proof {
                if 0 <= p < desktop.top@.len() {
                    assert(false);
                }
            }
            break;
        }
        proof {
            assert(0 <= p < desktop.top@.len());
            assert(cur == desktop.top@[p].handle);
            lemma_top_index_of(desktop.top@, cur);
            let s = spec_top_index_of(desktop.top@, cur);
            if s != p {
                assert(desktop.top@[s].handle != desktop.top@[p].handle);
            }
            assert(s == p);
        }
        if is_accepted(desktop, cur, mode) {
            proof {
                assert(spec_emits(desktop.top@[p], mode));
                assert(spec_next_emit(desktop.top@, mode, p) == p);
            }
            break;
        }
    }
    if cur == 0 {
        return None;
    }
    proof {
        assert(kk < desktop.top@.len());
        assert(spec_window_of(*desktop, cur) == Some(desktop.top@[kk]));
        assert(0 <= start <= desktop.top@.len());
        lemma_next_emit(desktop.top@, mode, start);
    }
    let ghost kw = desktop.top@[kk];
    if is_uwp_window(desktop, cur) {
        match get_uwp_actual_window(desktop, cur) {
            Some(child) => {
                proof {
                    assert(spec_emits(kw, mode) && spec_is_shell_host(kw));
                    assert(Some(child) == spec_resolved_child(kw));
                }
                *parent = Some(cur);
                return Some(child);
            },
            None => {
                proof {
                    assert(spec_emits(kw, mode));
                    assert(!(spec_resolved_child(kw) is Some));
                    assert(!spec_is_shell_host(kw));
                }
            },
        }
    }
    Some(cur)
}

/// Finds the first accepted candidate of a fresh traversal pass and
/// decides the strategy for the rest of the pass.
///
/// The explicit top-level find query is attempted first; when it is
/// unavailable the pass switches permanently to sibling stepping. When the
/// explicit query works but turns up no accepted candidate, the pass is
/// retried once from scratch with sibling stepping before concluding that
/// no eligible window exists (`None`). An accepted shell-host is emitted
/// as its resolved content child, with the host left in the
/// pending-parent slot.
pub fn first_window(
    desktop: &Desktop,
    mode: WindowSearchMode,
    parent: &mut Option<u64>,
    use_find_window_ex: &mut bool,
) -> (r: Option<u64>)
    requires
        desktop.distinct_handles(),
    ensures
        ({
            let k = spec_next_emit(desktop.top@, mode, 0);
            &&& *final(use_find_window_ex) == (desktop.find_ex_available && desktop.top@.len()
                > 0 && k < desktop.top@.len())
            &&& if k < desktop.top@.len() {
                r == Some(spec_emitted_handle(desktop.top@[k])) && *final(parent) == (
                if spec_is_shell_host(desktop.top@[k]) {
                    Some(desktop.top@[k].handle)
                } else {
                    None::<u64>
                })
            } else {
                r == None::<u64> && *final(parent) == None::<u64>
            }
        }),
{
    let ghost tops = desktop.top@;
    let ghost kk = spec_next_emit(tops, mode, 0);
    proof {
        lemma_next_emit(tops, mode, 0);
        if tops.len() > 0 {
            lemma_top_index_of(tops, tops[0].handle);
        }
    }
    let mut window: Option<u64> = find_window_ex_after(desktop, 0);
    if window.is_none() {
        *use_find_window_ex = false;
        window = get_desktop_first_child(desktop);
    } else {
        *use_find_window_ex = true;
    }
    *parent = None;
    let is_valid = match window {
        Some(h) => is_accepted(desktop, h, mode),
        None => false,
    };
    if !is_valid {
        window = next_window(desktop, window, mode, parent, *use_find_window_ex);
        if window.is_none() && *use_find_window_ex {
            *use_find_window_ex = false;
            window = get_desktop_first_child(desktop);
            let retry_valid = match window {
                Some(h) => is_accepted(desktop, h, mode),
                None => false,
            };
            if !retry_valid {
                window = next_window(desktop, window, mode, parent, *use_find_window_ex);
            }
        }
    }
    proof {
        assert(*use_find_window_ex == (desktop.find_ex_available && tops.len() > 0 && kk
            < tops.len()));
        assert(window is Some <==> kk < tops.len());
        if kk < tops.len() {
            assert(spec_emits(tops[kk], mode));
            assert((window->0 == tops[kk].handle && *parent == None::<u64>) || (
            spec_is_shell_host(tops[kk]) && Some(window->0) == spec_resolved_child(tops[kk])
                && *parent == Some(tops[kk].handle)));
        }
    }
    let w = match window {
        Some(w) => w,
        None => {
            return None;
        },
    };
    proof {
        if w == tops[kk].handle && *parent == None::<u64> {
            lemma_top_index_of(tops, w);
            let s = spec_top_index_of(tops, w);
            if s != kk {
                assert(tops[s].handle != tops[kk].handle);
            }
            assert(s == kk);
        } else {
            let f = spec_foreign_child_index(tops[kk].children@, tops[kk].process_id);
            lemma_foreign_child_index(tops[kk].children@, tops[kk].process_id);
            assert(w == tops[kk].children@[f].handle);
            lemma_top_index_of(tops, w);
            let s = spec_top_index_of(tops, w);
            if s >= 0 {
                assert(tops[s].handle != tops[kk].children@[f].handle);
            }
            assert(s < 0);
        }
    }
    if is_uwp_window(desktop, w) {
        match get_uwp_actual_window(desktop, w) {
            Some(c) => {
                *parent = Some(w);
                return Some(c);
            },
            None => {
                proof {
                    assert(!spec_is_shell_host(tops[kk]));
                }
            },
        }
    }
    Some(w)
}

/// One accepted capture candidate handed to the caller: its display title
/// and its window identity. Ownership passes entirely to the caller.
#[derive(Debug)]
pub struct WindowInfo {
    pub title: String,
    pub hwnd: u64,
}

/// The mathematical image of a [`WindowInfo`].
pub struct WindowInfoV {
    pub title: Seq<char>,
    pub hwnd: u64,
}

impl View for WindowInfo {
    type V = WindowInfoV;

    open spec fn view(&self) -> WindowInfoV {
        WindowInfoV { title: self.title@, hwnd: self.hwnd }
    }
}

/// The display title of a window, or `None` when the handle is not live or
/// the title query fails (an empty title fails the query).
fn get_window_title(desktop: &Desktop, handle: u64) -> (r: Option<String>)
    ensures
        match spec_title_of(*desktop, handle) {
            Some(t) => r is Some && r->0@ == t,
            None => r is None,
        },
{
    match find_top(desktop, handle) {
        Some(i) => {
            match &desktop.top[i].title {
                Some(t) => Some(t.clone()),
                None => None,
            }
        },
        None => {
            match find_owner(desktop, handle) {
                Some(p) => {
                    match &desktop.top[p.0].children[p.1].title {
                        Some(t) => Some(t.clone()),
                        None => None,
                    }
                },
                None => None,
            }
        },
    }
}

/// Fetches the title of a window and pairs it with the window's identity.
/// `None` when the title cannot be retrieved; the caller then drops this
/// one window and continues the scan.
pub fn get_window_info(desktop: &Desktop, hwnd: u64) -> (r: Option<WindowInfo>)
    ensures
        match spec_title_of(*desktop, hwnd) {
            Some(t) => r is Some && r->0@ == (WindowInfoV { title: t, hwnd }),
            None => r is None,
        },
{
    match get_window_title(desktop, hwnd) {
        Some(title) => Some(WindowInfo { title, hwnd }),
        None => None,
    }
}

/// What a pass contributes for the window at index `i`: nothing when the
/// traversal does not emit it, when the emitted identity is the calling
/// process's own console window, or when the title query fails; otherwise
/// exactly one record.
pub open spec fn spec_contribution(desktop: Desktop, mode: WindowSearchMode, i: int) -> Option<
    WindowInfoV,
> {
    let w = desktop.top@[i];
    if !spec_emits(w, mode) {
        None
    } else {
        let h = spec_emitted_handle(w);
        if h == desktop.console {
            None
        } else {
            match spec_title_of(desktop, h) {
                Some(t) => Some(WindowInfoV { title: t, hwnd: h }),
                None => None,
            }
        }
    }
}

/// The records a full pass produces for the windows at indices `i` and up,
/// in traversal order.
pub open spec fn spec_windows_from(desktop: Desktop, mode: WindowSearchMode, i: int) -> Seq<
    WindowInfoV,
>
    decreases desktop.top@.len() - i,
{
    if i < 0 || i >= desktop.top@.len() {
        Seq::empty()
    } else {
        match spec_contribution(desktop, mode, i) {
            Some(e) => seq![e] + spec_windows_from(desktop, mode, i + 1),
            None => spec_windows_from(desktop, mode, i + 1),
        }
    }
}

/// Everything one full pass hands to the caller, in traversal order. This
/// is a function of the snapshot and the mode alone — in particular it
/// does not depend on which traversal strategy ends up being used.
pub open spec fn spec_all_windows(desktop: Desktop, mode: WindowSearchMode) -> Seq<WindowInfoV> {
    spec_windows_from(desktop, mode, 0)
}

/// Windows the traversal does not emit contribute nothing: the records
/// from `i` are exactly the records from the next emitting index.
pub proof fn lemma_windows_from_to_next_emit(desktop: Desktop, mode: WindowSearchMode, i: int)
    requires
        0 <= i <= desktop.top@.len(),
    ensures
        spec_windows_from(desktop, mode, i) == spec_windows_from(
            desktop,
            mode,
            spec_next_emit(desktop.top@, mode, i),
        ),
    decreases desktop.top@.len() - i,
{
    if i < desktop.top@.len() && !spec_emits(desktop.top@[i], mode) {
        lemma_windows_from_to_next_emit(desktop, mode, i + 1);
    }
}

/// Collects every accepted candidate of one full traversal pass, in
/// traversal order: each emitted window that is not the calling process's
/// own console window and whose title can be retrieved, as a title/identity
/// record. When no eligible window exists at all the result is empty.
pub fn get_all_windows(desktop: &Desktop, mode: WindowSearchMode) -> (out: Vec<WindowInfo>)
    requires
        desktop.distinct_handles(),
    ensures
        out@.map_values(|wi: WindowInfo| wi@) == spec_all_windows(*desktop, mode),
{
    let ghost tops = desktop.top@;
    let mut use_find_window_ex: bool = false;
    let mut parent: Option<u64> = None;
    let mut window: Option<u64> = first_window(desktop, mode, &mut parent, &mut use_find_window_ex);
    let curr = desktop.console;
    let mut out: Vec<WindowInfo> = Vec::new();
    let ghost mut k: int = spec_next_emit(tops, mode, 0);
    proof {
        lemma_next_emit(tops, mode, 0);
        lemma_windows_from_to_next_emit(*desktop, mode, 0);
        assert(out@.map_values(|wi: WindowInfo| wi@) =~= Seq::<WindowInfoV>::empty());
    }
    loop
        invariant_except_break
            window is None ==> k == tops.len(),
            window matches Some(w) ==> k < tops.len() && spec_emits(tops[k], mode) && ((
            !spec_is_shell_host(tops[k]) && w == tops[k].handle && parent == None::<u64>) || (
            spec_is_shell_host(tops[k]) && Some(w) == spec_resolved_child(tops[k]) && parent
                == Some(tops[k].handle))),
        invariant
            desktop.distinct_handles(),
            tops == desktop.top@,
            curr == desktop.console,
            use_find_window_ex ==> desktop.find_ex_available,
            0 <= k <= tops.len(),
            out@.map_values(|wi: WindowInfo| wi@) + spec_windows_from(*desktop, mode, k)
                == spec_all_windows(*desktop, mode),
        ensures
            out@.map_values(|wi: WindowInfo| wi@) == spec_all_windows(*desktop, mode),
        decreases tops.len() - k,
    {
        let w = match window {
            Some(h) => h,
            None => {
                proof {
                    assert(spec_windows_from(*desktop, mode, k) =~= Seq::<WindowInfoV>::empty());
                }
                break ;
            },
        };
        proof {
            assert(w == spec_emitted_handle(tops[k]));
        }
        if w != curr {
            match get_window_info(desktop, w) {
                Some(info) => {
                    proof {
                        assert(spec_contribution(*desktop, mode, k) == Some(info@));
                        assert(out@.push(info).map_values(|wi: WindowInfo| wi@) =~= out@.map_values(
                            |wi: WindowInfo| wi@,
                        ) + seq![info@]);
                        assert(seq![info@] + spec_windows_from(*desktop, mode, k + 1)
                            =~= spec_windows_from(*desktop, mode, k));
                    }
                    out.push(info);
                },
                None => {
                    proof {
                        assert(spec_contribution(*desktop, mode, k) is None);
                    }
                },
            }
        } else {
            proof {
                assert(spec_contribution(*desktop, mode, k) is None);
            }
        }
        proof {
            // the cursor (or its pending parent) sits at index k
            let anchor = spec_resume_handle(window, parent);
            assert(anchor == if spec_is_shell_host(tops[k]) {
                tops[k].handle
            } else {
                w
            });
            assert(anchor == tops[k].handle);
            lemma_top_index_of(tops, anchor);
            let s = spec_top_index_of(tops, anchor);
            if s != k {
                assert(tops[s].handle != tops[k].handle);
            }
            assert(s == k);
            lemma_next_emit(tops, mode, k + 1);
            lemma_windows_from_to_next_emit(*desktop, mode, k + 1);
        }
        window = next_window(desktop, window, mode, &mut parent, use_find_window_ex);
        proof {
            k = spec_next_emit(tops, mode, k + 1);
        }
    }
    out
}

/// How many records in `s` carry the window identity `h`.
pub open spec fn spec_count_handle(s: Seq<WindowInfoV>, h: u64) -> int
    decreases s.len(),
{
    if s.len() == 0 {
        0
    } else {
        (if s[0].hwnd == h {
            1int
        } else {
            0int
        }) + spec_count_handle(s.drop_first(), h)
    }
}

/// A count of zero means the identity appears nowhere, and conversely.
pub proof fn lemma_count_handle_zero(s: Seq<WindowInfoV>, h: u64)
    ensures
        spec_count_handle(s, h) >= 0,
        spec_count_handle(s, h) == 0 <==> forall|j: int|
            0 <= j < s.len() ==> (#[trigger] s[j]).hwnd != h,
    decreases s.len(),
{
    if s.len() > 0 {
        lemma_count_handle_zero(s.drop_first(), h);
        assert(forall|j: int|
            1 <= j < s.len() ==> (#[trigger] s[j]).hwnd == s.drop_first()[j - 1].hwnd);
    }
}

/// Prepending one record steps the count by one exactly when the record
/// carries the counted identity.
proof fn lemma_count_handle_unshift(e: WindowInfoV, rest: Seq<WindowInfoV>, h: u64)
    ensures
        spec_count_handle(seq![e] + rest, h) == (if e.hwnd == h {
            1int
        } else {
            0int
        }) + spec_count_handle(rest, h),
{
    assert((seq![e] + rest).drop_first() =~= rest);
    assert((seq![e] + rest)[0] == e);
}

/// No window at index `i` or beyond contributes a record carrying `h`,
/// so the records from `i` count `h` zero times.
proof fn lemma_windows_from_count_zero(desktop: Desktop, mode: WindowSearchMode, i: int, h: u64)
    requires
        0 <= i <= desktop.top@.len(),
        forall|t: int|
            i <= t < desktop.top@.len() ==> (#[trigger] spec_contribution(desktop, mode, t))
                is None || spec_contribution(desktop, mode, t)->0.hwnd != h,
    ensures
        spec_count_handle(spec_windows_from(desktop, mode, i), h) == 0,
    decreases desktop.top@.len() - i,
{
    if i < desktop.top@.len() {
        lemma_windows_from_count_zero(desktop, mode, i + 1, h);
        match spec_contribution(desktop, mode, i) {
            Some(e) => {
                lemma_count_handle_unshift(e, spec_windows_from(desktop, mode, i + 1), h);
            },
            None => {},
        }
    }
}

/// Exactly the window at index `t` contributes a record carrying `h`, so
/// the records from any `i <= t` count `h` exactly once.
proof fn lemma_windows_from_count_one(
    desktop: Desktop,
    mode: WindowSearchMode,
    i: int,
    t: int,
    h: u64,
)
    requires
        0 <= i <= t < desktop.top@.len(),
        spec_contribution(desktop, mode, t) is Some,
        spec_contribution(desktop, mode, t)->0.hwnd == h,
        forall|u: int|
            i <= u < desktop.top@.len() && u != t ==> (#[trigger] spec_contribution(
                desktop,
                mode,
                u,
            )) is None || spec_contribution(desktop, mode, u)->0.hwnd != h,
    ensures
        spec_count_handle(spec_windows_from(desktop, mode, i), h) == 1,
    decreases desktop.top@.len() - i,
{
    if i == t {
        lemma_windows_from_count_zero(desktop, mode, i + 1, h);
        lemma_count_handle_unshift(
            spec_contribution(desktop, mode, t)->0,
            spec_windows_from(desktop, mode, i + 1),
            h,
        );
    } else {
        lemma_windows_from_count_one(desktop, mode, i + 1, t, h);
        match spec_contribution(desktop, mode, i) {
            Some(e) => {
                lemma_count_handle_unshift(e, spec_windows_from(desktop, mode, i + 1), h);
            },
            None => {},
        }
    }
}

/// The calling process's own console window never appears in a pass's
/// output, whatever the mode.
pub proof fn lemma_console_never_included(desktop: Desktop, mode: WindowSearchMode)
    ensures
        forall|j: int|
            0 <= j < spec_all_windows(desktop, mode).len() ==> (#[trigger] spec_all_windows(
                desktop,
                mode,
            )[j]).hwnd != desktop.console,
{
    lemma_windows_from_console(desktop, mode, 0);
}

/// Every record from index `i` on carries an identity other than the
/// console window's.
proof fn lemma_windows_from_console(desktop: Desktop, mode: WindowSearchMode, i: int)
    ensures
        forall|j: int|
            0 <= j < spec_windows_from(desktop, mode, i).len() ==> (#[trigger] spec_windows_from(
                desktop,
                mode,
                i,
            )[j]).hwnd != desktop.console,
    decreases desktop.top@.len() - i,
{
    if 0 <= i < desktop.top@.len() {
        lemma_windows_from_console(desktop, mode, i + 1);
        let rest = spec_windows_from(desktop, mode, i + 1);
        match spec_contribution(desktop, mode, i) {
            Some(e) => {
                assert(forall|j: int|
                    1 <= j < spec_windows_from(desktop, mode, i).len()
                        ==> (#[trigger] spec_windows_from(desktop, mode, i)[j]).hwnd == rest[j
                        - 1].hwnd);
            },
            None => {},
        }
    }
}

/// A shell-host that resolves to a foreign content child never appears in
/// a pass's output itself; its child appears in its place, exactly once,
/// whenever the child is not the console window and its title can be
/// retrieved.
pub proof fn lemma_shell_host_substituted(desktop: Desktop, mode: WindowSearchMode, i: int)
    requires
        desktop.distinct_handles(),
        0 <= i < desktop.top@.len(),
        spec_is_shell_host(desktop.top@[i]),
        spec_resolved_child(desktop.top@[i]) is Some,
    ensures
        spec_count_handle(spec_all_windows(desktop, mode), desktop.top@[i].handle) == 0,
        forall|j: int|
            0 <= j < spec_all_windows(desktop, mode).len() ==> (#[trigger] spec_all_windows(
                desktop,
                mode,
            )[j]).hwnd != desktop.top@[i].handle,
        spec_resolved_child(desktop.top@[i])->0 != desktop.console && spec_title_of(
            desktop,
            spec_resolved_child(desktop.top@[i])->0,
        ) is Some && spec_window_valid(desktop.top@[i], mode) ==> spec_count_handle(
            spec_all_windows(desktop, mode),
            spec_resolved_child(desktop.top@[i])->0,
        ) == 1,
{
    let tops = desktop.top@;
    let host = tops[i];
    let hh = host.handle;
    lemma_foreign_child_index(host.children@, host.process_id);
    let f = spec_foreign_child_index(host.children@, host.process_id);
    let c = host.children@[f].handle;
    assert forall|t: int|
        0 <= t < tops.len() implies (#[trigger] spec_contribution(desktop, mode, t)) is None
        || spec_contribution(desktop, mode, t)->0.hwnd != hh by {
        if spec_contribution(desktop, mode, t) is Some {
            if spec_is_shell_host(tops[t]) {
                lemma_foreign_child_index(tops[t].children@, tops[t].process_id);
                let g = spec_foreign_child_index(tops[t].children@, tops[t].process_id);
                assert(tops[i].handle != tops[t].children@[g].handle);
            } else {
                if t != i {
                    assert(tops[t].handle != tops[i].handle);
                }
            }
        }
    }
    lemma_windows_from_count_zero(desktop, mode, 0, hh);
    lemma_count_handle_zero(spec_all_windows(desktop, mode), hh);
    if c != desktop.console && spec_title_of(desktop, c) is Some && spec_window_valid(host, mode) {
        assert(spec_contribution(desktop, mode, i) is Some);
        assert(spec_contribution(desktop, mode, i)->0.hwnd == c);
        assert forall|u: int|
            0 <= u < tops.len() && u != i implies (#[trigger] spec_contribution(desktop, mode, u))
            is None || spec_contribution(desktop, mode, u)->0.hwnd != c by {
            if spec_contribution(desktop, mode, u) is Some {
                if spec_is_shell_host(tops[u]) {
                    lemma_foreign_child_index(tops[u].children@, tops[u].process_id);
                    let g = spec_foreign_child_index(tops[u].children@, tops[u].process_id);
                    assert(tops[u].children@[g].handle != tops[i].children@[f].handle);
                } else {
                    assert(tops[u].handle != tops[i].children@[f].handle);
                }
            }
        }
        lemma_windows_from_count_one(desktop, mode, 0, i, c);
    }
}

/// A shell-host with no foreign-owned child contributes nothing to a
/// pass: neither the host itself nor any of its children appears in the
/// output.
pub proof fn lemma_bare_shell_host_dropped(desktop: Desktop, mode: WindowSearchMode, i: int)
    requires
        desktop.distinct_handles(),
        0 <= i < desktop.top@.len(),
        spec_is_shell_host(desktop.top@[i]),
        spec_resolved_child(desktop.top@[i]) is None,
    ensures
        spec_count_handle(spec_all_windows(desktop, mode), desktop.top@[i].handle) == 0,
        forall|j: int|
            0 <= j < spec_all_windows(desktop, mode).len() ==> (#[trigger] spec_all_windows(
                desktop,
                mode,
            )[j]).hwnd != desktop.top@[i].handle,
        forall|a: int|
            0 <= a < desktop.top@[i].children@.len() ==> spec_count_handle(
                spec_all_windows(desktop, mode),
                (#[trigger] desktop.top@[i].children@[a]).handle,
            ) == 0,
{
    let tops = desktop.top@;
    assert(!spec_emits(tops[i], mode));
    assert forall|t: int|
        0 <= t < tops.len() implies (#[trigger] spec_contribution(desktop, mode, t)) is None
        || spec_contribution(desktop, mode, t)->0.hwnd != tops[i].handle by {
        if spec_contribution(desktop, mode, t) is Some {
            if spec_is_shell_host(tops[t]) {
                lemma_foreign_child_index(tops[t].children@, tops[t].process_id);
                let g = spec_foreign_child_index(tops[t].children@, tops[t].process_id);
                assert(tops[i].handle != tops[t].children@[g].handle);
            } else {
                if t != i {
                    assert(tops[t].handle != tops[i].handle);
                }
            }
        }
    }
    lemma_windows_from_count_zero(desktop, mode, 0, tops[i].handle);
    lemma_count_handle_zero(spec_all_windows(desktop, mode), tops[i].handle);
    assert forall|a: int|
        0 <= a < tops[i].children@.len() implies spec_count_handle(
        spec_all_windows(desktop, mode),
        (#[trigger] tops[i].children@[a]).handle,
    ) == 0 by {
        let ch = tops[i].children@[a].handle;
        assert forall|t: int|
            0 <= t < tops.len() implies (#[trigger] spec_contribution(desktop, mode, t)) is None
            || spec_contribution(desktop, mode, t)->0.hwnd != ch by {
            if spec_contribution(desktop, mode, t) is Some {
                if spec_is_shell_host(tops[t]) {
                    lemma_foreign_child_index(tops[t].children@, tops[t].process_id);
                    let g = spec_foreign_child_index(tops[t].children@, tops[t].process_id);
                    assert(tops[t].children@[g].handle != tops[i].children@[a].handle);
                } else {
                    assert(tops[t].handle != tops[i].children@[a].handle);
                }
            }
        }
        lemma_windows_from_count_zero(desktop, mode, 0, ch);
    }
}

/// Two full passes over one unchanged snapshot produce identical ordered
/// output: everything a pass hands out is a function of the snapshot and
/// the mode alone.
pub proof fn lemma_pass_idempotent(
    desktop: Desktop,
    mode: WindowSearchMode,
    r1: Seq<WindowInfoV>,
    r2: Seq<WindowInfoV>,
)
    requires
        r1 == spec_all_windows(desktop, mode),
        r2 == spec_all_windows(desktop, mode),
    ensures
        r1 == r2,
{
}

/// Losing the primary traversal primitive changes nothing: two snapshots
/// that agree on the window set and the console window — and differ at
/// most in whether the explicit find query is available — yield the same
/// records in the same order.
pub proof fn lemma_fallback_same_windows(d1: Desktop, d2: Desktop, mode: WindowSearchMode)
    requires
        d1.top == d2.top,
        d1.console == d2.console,
    ensures
        spec_all_windows(d1, mode) == spec_all_windows(d2, mode),
{
    lemma_windows_from_strategy_agnostic(d1, d2, mode, 0);
}

/// The records from any index never depend on the strategy flag.
proof fn lemma_windows_from_strategy_agnostic(d1: Desktop, d2: Desktop, mode: WindowSearchMode,
    i: int)
    requires
        d1.top == d2.top,
        d1.console == d2.console,
    ensures
        spec_windows_from(d1, mode, i) == spec_windows_from(d2, mode, i),
    decreases d1.top@.len() - i,
{
    if 0 <= i < d1.top@.len() {
        lemma_windows_from_strategy_agnostic(d1, d2, mode, i + 1);
        assert(spec_contribution(d1, mode, i) == spec_contribution(d2, mode, i));
    }
}

} // verus!
