//! Decisions of the command-line redirector: which commands go verbatim to
//! the manager, how a subcommand token is normalized, and next/previous
//! window selection with wrap-around to the opposite end of the list.

use vstd::prelude::*;

verus! {

use vstd::string::StringExecFns;
use crate::text::str_eq;
use crate::yabai::models::Space;
use crate::yabai::models::SpaceView;
use crate::yabai::models::Window;
use crate::yabai::models::WindowView;
use crate::yabai::models::window_views;

/// Whether a user command is forwarded verbatim to the manager socket:
/// everything but the handful of subcommands this program post-processes.
pub fn should_just_redirect(cmd: &str) -> (r: bool)
    ensures
        r == (cmd@ != "focus"@ && cmd@ != "swap"@ && cmd@ != "move"@ && cmd@ != "warp"@ && cmd@
            != "space"@ && cmd@ != "inc"@ && cmd@ != "make"@),
{
    !str_eq(cmd, "focus") && !str_eq(cmd, "swap") && !str_eq(cmd, "move") && !str_eq(cmd, "warp")
        && !str_eq(cmd, "space") && !str_eq(cmd, "inc") && !str_eq(cmd, "make")
}

/// A subcommand in the manager's flag spelling: two dashes in front.
pub fn normalize_command(cmd: &str) -> (r: String)
    ensures
        r@ == "--"@ + cmd@,
{
    "--".to_owned().concat(cmd)
}

/// The index next to `current`, wrapping to the opposite end of a list of
/// `len` entries.
pub fn wrap_index(current: usize, len: usize, next: bool) -> (r: usize)
    requires
        len > 0,
        current < len,
    ensures
        r < len,
        next && current + 1 < len ==> r == current + 1,
        next && current + 1 == len ==> r == 0,
        !next && current > 0 ==> r == current - 1,
        !next && current == 0 ==> r == len - 1,
{
    if next {
        if current + 1 >= len {
            0
        } else {
            current + 1
        }
    } else {
        if current == 0 {
            len - 1
        } else {
            current - 1
        }
    }
}

/// Index of the first entry equal to `x` at or after `i`.
pub open spec fn spec_index_from(ids: Seq<u32>, x: u32, i: int) -> Option<int>
    decreases ids.len() - i,
{
    if i < 0 || i >= ids.len() {
        None
    } else if ids[i] == x {
        Some(i)
    } else {
        spec_index_from(ids, x, i + 1)
    }
}

/// Index of the first focused window at or after `i`.
pub open spec fn spec_focused_from(ws: Seq<WindowView>, i: int) -> Option<int>
    decreases ws.len() - i,
{
    if i < 0 || i >= ws.len() {
        None
    } else if ws[i].has_focus {
        Some(i)
    } else {
        spec_focused_from(ws, i + 1)
    }
}

/// The id of the window next to the focused one in the space's window
/// order, wrapping to the opposite end; `None` when no listed window has
/// focus or the focused window is not in the space's list.
pub open spec fn spec_wrap_target(sv: SpaceView, ws: Seq<WindowView>, next: bool) -> Option<u32> {
    match spec_focused_from(ws, 0) {
        None => None,
        Some(f) => match spec_index_from(sv.windows, ws[f].id, 0) {
            None => None,
            Some(i) => {
                let n = sv.windows.len() as int;
                let idx = if next {
                    if i + 1 < n {
                        i + 1
                    } else {
                        0
                    }
                } else {
                    if i > 0 {
                        i - 1
                    } else {
                        n - 1
                    }
                };
                Some(sv.windows[idx])
            },
        },
    }
}

/// Pick the window to focus for a next/previous request: the neighbour of
/// the focused window in the space's window order, wrapped around.
pub fn wrap_target_window(space: &Space, windows: &Vec<Window>, next: bool) -> (r: Option<u32>)
    ensures
        r == spec_wrap_target(space@, window_views(windows@), next),
{
    let ghost vws = window_views(windows@);
    let mut f: usize = 0;
    while f < windows.len() && !windows[f].has_focus
        invariant
            0 <= f <= windows@.len(),
            vws == window_views(windows@),
            spec_focused_from(vws, 0) == spec_focused_from(vws, f as int),
        decreases windows@.len() - f,
    {
        f += 1;
    }
    if f >= windows.len() {
        return None;
    }
    let target_id = windows[f].id;
    let ghost svw = space@.windows;
    let mut i: usize = 0;
    while i < space.windows.len() && space.windows[i] != target_id
        invariant
            0 <= i <= space.windows@.len(),
            svw == space@.windows,
            spec_index_from(svw, target_id, 0) == spec_index_from(svw, target_id, i as int),
        decreases space.windows@.len() - i,
    {
        i += 1;
    }
    if i >= space.windows.len() {
        return None;
    }
    let idx = wrap_index(i, space.windows.len(), next);
    Some(space.windows[idx])
}

/// The edge window a failed next/previous request falls back to: the
/// space's first window going forward, its last going backward.
pub fn edge_window_id(space: &Space, next: bool) -> (r: u32)
    ensures
        next ==> r == space@.first_window,
        !next ==> r == space@.last_window,
{
    if next {
        space.first_window
    } else {
        space.last_window
    }
}

/// The positional selector a failed next/previous request falls back to:
/// the opposite end of the cycle.
pub fn edge_position(next: bool) -> (r: &'static str)
    ensures
        next ==> r@ == "first"@,
        !next ==> r@ == "last"@,
{
    if next {
        "first"
    } else {
        "last"
    }
}

} // verus!
