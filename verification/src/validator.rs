//! The validity predicate deciding whether a window is an eligible capture
//! target.

use vstd::prelude::*;

verus! {

use crate::desktop::{Desktop, TopWindow, spec_window_of, find_top};

/// Whether minimized windows are eligible capture targets for a pass. Fixed
/// for the lifetime of one enumeration pass.
#[derive(Debug, Clone, Copy, PartialEq, Eq, Structural)]
pub enum WindowSearchMode {
    ExcludeMinimized,
    IncludeMinimized,
}

/// Whether the window with this handle is recorded as cloaked; a handle the
/// snapshot does not know fails open to "not cloaked".
pub open spec fn spec_window_cloaked(desktop: Desktop, handle: u64) -> bool {
    match spec_window_of(desktop, handle) {
        Some(w) => w.cloaked,
        None => false,
    }
}

/// The validity predicate on a single window record. A window whose
/// client-rectangle query failed (`client_area` is `None`) is ineligible:
/// an attribute query that fails never surfaces as an error, it only
/// excludes the window.
pub open spec fn spec_window_valid(w: TopWindow, mode: WindowSearchMode) -> bool {
    &&& w.visible
    &&& (mode == WindowSearchMode::ExcludeMinimized ==> !w.minimized && !w.cloaked)
    &&& w.client_area is Some
    &&& !w.tool_window
    &&& !w.child_style
    &&& (mode == WindowSearchMode::ExcludeMinimized ==> w.client_area->0.right != 0
        && w.client_area->0.bottom != 0)
}

/// The validity predicate looked up by handle; a handle the snapshot does
/// not know (the window vanished) is never valid.
pub open spec fn spec_valid(desktop: Desktop, handle: u64, mode: WindowSearchMode) -> bool {
    match spec_window_of(desktop, handle) {
        Some(w) => spec_window_valid(w, mode),
        None => false,
    }
}

/// Whether the window is cloaked: it exists but the OS is not compositing
/// it onto any display (virtual-desktop or suspended-application state).
/// A failed probe — including a vanished handle — counts as not cloaked,
/// since cloaking only ever serves as an exclusion signal.
pub fn is_window_cloaked(desktop: &Desktop, handle: u64) -> (r: bool)
    ensures
        r == spec_window_cloaked(*desktop, handle),
{
    match find_top(desktop, handle) {
        Some(i) => desktop.top[i].cloaked,
        None => false,
    }
}

/// Decides whether a window is an eligible capture target under `mode`:
/// it must be visible; not minimized and not cloaked when minimized windows
/// are excluded; carry neither the tool-window nor the child-window style
/// bit; and, when minimized windows are excluded, have a client area of
/// nonzero extent. Every failed attribute query — a vanished handle as
/// much as a failed client-rectangle query — makes the window ineligible
/// rather than surfacing an error: a vanished window is indistinguishable
/// from an ineligible one for discovery purposes.
pub fn is_window_valid(desktop: &Desktop, handle: u64, mode: WindowSearchMode) -> (r: bool)
    ensures
        r == spec_valid(*desktop, handle, mode),
{
    let i = match find_top(desktop, handle) {
        Some(i) => i,
        None => {
            return false;
        },
    };
    let is_visible = desktop.top[i].visible;
    if !is_visible {
        return false;
    }
    if mode == WindowSearchMode::ExcludeMinimized {
        let is_minimized = desktop.top[i].minimized || is_window_cloaked(desktop, handle);
        if is_minimized {
            return false;
        }
    }
    let styles_tool = desktop.top[i].tool_window;
    let styles_child = desktop.top[i].child_style;
    match &desktop.top[i].client_area {
        Some(rect) => {
            if styles_tool {
                return false;
            }
            if styles_child {
                return false;
            }
            if mode == WindowSearchMode::ExcludeMinimized && (rect.bottom == 0 || rect.right
                == 0) {
                return false;
            }
            true
        },
        None => false,
    }
}

} // verus!
