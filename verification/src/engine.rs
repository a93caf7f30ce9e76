//! The automation engine: the pure decision of every event-triggered
//! workflow.  The caller process performs the manager commands these
//! decisions name and feeds query results back in.

use vstd::prelude::*;

verus! {

use crate::num::spec_dec;
use crate::num::u32_to_string;
use crate::yabai::events::Event;
use crate::yabai::events::SpaceEvent;
use crate::yabai::events::WindowEvent;
use crate::yabai::models::Space;
use crate::yabai::models::SpaceView;
use crate::yabai::models::Window;
use crate::yabai::models::WindowView;
use crate::yabai::models::window_views;
use crate::yabai::models::space_views;
use crate::yabai::socket::arg_views;
use crate::scratchpad::Scratchpad;
use crate::scratchpad::ScratchpadView;
use crate::scratchpad::scratchpad_views;
use crate::scratchpad::spec_scratchpad_matches;
use crate::scratchpad::scratchpad_matches;

/// The workflow an event selects.
#[derive(Debug, Clone, Copy, PartialEq, Eq, Structural)]
pub enum EventAction {
    /// Run the space-changed workflow: focus-theft correction, then
    /// empty-space reaping.
    SpaceChanged { space_id: u32, recent_space_id: u32 },
    /// Focus the manager's "last" window.
    FocusLastWindow,
    /// Test the focused window against the scratchpads and hide the
    /// frontmost application on a match.
    ScratchpadCheck,
    /// Recognized, intentionally without action.
    Ignore,
}

/// The event is outside the automated set: display, application and
/// mission-control events select no workflow and are reported as such.
#[derive(Debug, Clone, Copy, PartialEq, Eq, Structural)]
pub struct NotSupported;

/// Which workflow each event selects: space changes and the handled window
/// events are automated, the remaining window kinds are deliberate no-ops,
/// and every other category is not supported.
pub open spec fn spec_dispatch(e: Event) -> Result<EventAction, NotSupported> {
    match e {
        Event::Space(SpaceEvent::Changed { space_id, recent_space_id }) => Ok(
            EventAction::SpaceChanged { space_id, recent_space_id },
        ),
        Event::Window(WindowEvent::Destroyed { .. }) => Ok(EventAction::FocusLastWindow),
        Event::Window(WindowEvent::Minimized { .. }) => Ok(EventAction::FocusLastWindow),
        Event::Window(WindowEvent::Focused { .. }) => Ok(EventAction::ScratchpadCheck),
        Event::Window(_) => Ok(EventAction::Ignore),
        _ => Err(NotSupported),
    }
}

/// Map an event to its workflow.
pub fn dispatch(e: &Event) -> (r: Result<EventAction, NotSupported>)
    ensures
        r == spec_dispatch(*e),
{
    match e {
        Event::Space(SpaceEvent::Changed { space_id, recent_space_id }) => Ok(
            EventAction::SpaceChanged { space_id: *space_id, recent_space_id: *recent_space_id },
        ),
        Event::Window(WindowEvent::Destroyed { .. }) => Ok(EventAction::FocusLastWindow),
        Event::Window(WindowEvent::Minimized { .. }) => Ok(EventAction::FocusLastWindow),
        Event::Window(WindowEvent::Focused { .. }) => Ok(EventAction::ScratchpadCheck),
        Event::Window(_) => Ok(EventAction::Ignore),
        _ => Err(NotSupported),
    }
}

/// Whether a window counts for focus correction: neither minimized nor
/// hidden.
pub open spec fn spec_visible(w: WindowView) -> bool {
    !w.is_minimized && !w.is_hidden
}

/// Some window in the listing counts.
pub open spec fn spec_has_visible(ws: Seq<WindowView>) -> bool {
    exists|i: int| 0 <= i < ws.len() && spec_visible(#[trigger] ws[i])
}

/// Some counting window has focus.
pub open spec fn spec_visible_focused(ws: Seq<WindowView>) -> bool {
    exists|i: int| 0 <= i < ws.len() && spec_visible(#[trigger] ws[i]) && ws[i].has_focus
}

/// The first step of focus-theft correction.
#[derive(Debug, Clone, Copy, PartialEq, Eq, Structural)]
pub enum FocusStep {
    /// No unminimized, unhidden window remains: a recoverable condition
    /// that stops the space workflow.
    NoWindows,
    /// A remaining window already has focus: nothing to correct.
    AlreadyFocused,
    /// Focus was stolen: focus the window under the mouse pointer.
    FocusMouse,
}

/// Decide focus-theft correction over the windows of the entered space.
pub fn focus_correction(windows: &Vec<Window>) -> (r: FocusStep)
    ensures
        r is NoWindows <==> !spec_has_visible(window_views(windows@)),
        r is AlreadyFocused <==> spec_has_visible(window_views(windows@))
            && spec_visible_focused(window_views(windows@)),
        r is FocusMouse <==> spec_has_visible(window_views(windows@)) && !spec_visible_focused(
            window_views(windows@),
        ),
{
    let ghost vws = window_views(windows@);
    let mut any_visible = false;
    let mut any_focused = false;
    let mut i: usize = 0;
    while i < windows.len()
        invariant
            0 <= i <= windows@.len(),
            vws == window_views(windows@),
            any_visible == exists|k: int| 0 <= k < i && spec_visible(#[trigger] vws[k]),
            any_focused == exists|k: int|
                0 <= k < i && spec_visible(#[trigger] vws[k]) && vws[k].has_focus,
        decreases windows@.len() - i,
    {
        let w = &windows[i];
        if !w.is_minimized && !w.is_hidden {
            proof {
                assert(spec_visible(vws[i as int]));
            }
            any_visible = true;
            if w.has_focus {
                any_focused = true;
            }
        }
        i += 1;
    }
    if !any_visible {
        FocusStep::NoWindows
    } else if any_focused {
        FocusStep::AlreadyFocused
    } else {
        FocusStep::FocusMouse
    }
}

/// The arguments that focus the window under the mouse pointer.
pub fn focus_mouse_args() -> (r: Vec<String>)
    ensures
        arg_views(r@) == seq!["window"@, "--focus"@, "mouse"@],
{
    let mut v: Vec<String> = Vec::new();
    v.push("window".to_owned());
    v.push("--focus".to_owned());
    v.push("mouse".to_owned());
    proof {
        assert(arg_views(v@) =~= seq!["window"@, "--focus"@, "mouse"@]);
    }
    v
}

/// The arguments that focus a window by id.
pub fn focus_window_args(id: u32) -> (r: Vec<String>)
    ensures
        arg_views(r@) == seq!["window"@, "--focus"@, spec_dec(id as nat)],
{
    let mut v: Vec<String> = Vec::new();
    v.push("window".to_owned());
    v.push("--focus".to_owned());
    v.push(u32_to_string(id));
    proof {
        assert(arg_views(v@) =~= seq!["window"@, "--focus"@, spec_dec(id as nat)]);
    }
    v
}

/// Index of the first counting window at or after `i`.
pub open spec fn spec_first_visible_from(ws: Seq<WindowView>, i: int) -> Option<int>
    decreases ws.len() - i,
{
    if i < 0 || i >= ws.len() {
        None
    } else if spec_visible(ws[i]) {
        Some(i)
    } else {
        spec_first_visible_from(ws, i + 1)
    }
}

/// The fallback of focus correction when focusing by mouse failed: focus
/// the first remaining window, by id.
pub fn focus_fallback_args(windows: &Vec<Window>) -> (r: Option<Vec<String>>)
    ensures
        match spec_first_visible_from(window_views(windows@), 0) {
            None => r is None,
            Some(k) => r matches Some(args) && arg_views(args@) == seq![
                "window"@,
                "--focus"@,
                spec_dec(window_views(windows@)[k].id as nat),
            ],
        },
{
    let ghost vws = window_views(windows@);
    let mut i: usize = 0;
    while i < windows.len()
        invariant
            0 <= i <= windows@.len(),
            vws == window_views(windows@),
            spec_first_visible_from(vws, 0) == spec_first_visible_from(vws, i as int),
        decreases windows@.len() - i,
    {
        let w = &windows[i];
        if !w.is_minimized && !w.is_hidden {
            return Some(focus_window_args(w.id));
        }
        i += 1;
    }
    None
}

/// Every window in the listing is minimized or hidden; an empty listing
/// counts vacuously.
pub open spec fn spec_all_hidden(ws: Seq<WindowView>) -> bool {
    forall|i: int| 0 <= i < ws.len() ==> (#[trigger] ws[i]).is_minimized || ws[i].is_hidden
}

/// When a just-left space is reaped: reaping is enabled, the space is
/// neither visible nor focused nor in native fullscreen, and every window
/// remaining in it is minimized or hidden.
pub open spec fn spec_should_reap(space: SpaceView, ws: Seq<WindowView>, auto_close: bool) -> bool {
    auto_close && !space.is_visible && !space.has_focus && !space.is_native_fullscreen
        && spec_all_hidden(ws)
}

/// Decide empty-space reaping for the space that was just left: exactly one
/// destroy command for the space's index when it is to be reaped, none
/// otherwise.
pub fn reap_decision(space: &Space, windows: &Vec<Window>, auto_close: bool) -> (r: Option<
    Vec<String>,
>)
    ensures
        r is Some <==> spec_should_reap(space@, window_views(windows@), auto_close),
        r matches Some(args) ==> arg_views(args@) == seq![
            "space"@,
            spec_dec(space@.index as nat),
            "--destroy"@,
        ],
{
    let ghost vws = window_views(windows@);
    if !auto_close || space.is_visible || space.has_focus || space.is_native_fullscreen {
        return None;
    }
    let mut i: usize = 0;
    while i < windows.len()
        invariant
            0 <= i <= windows@.len(),
            vws == window_views(windows@),
            forall|k: int| 0 <= k < i ==> (#[trigger] vws[k]).is_minimized || vws[k].is_hidden,
        decreases windows@.len() - i,
    {
        let w = &windows[i];
        if !w.is_minimized && !w.is_hidden {
            proof {
                assert(!(vws[i as int].is_minimized || vws[i as int].is_hidden));
                assert(!spec_all_hidden(vws));
            }
            return None;
        }
        i += 1;
    }
    let mut v: Vec<String> = Vec::new();
    v.push("space".to_owned());
    v.push(u32_to_string(space.index));
    v.push("--destroy".to_owned());
    proof {
        assert(arg_views(v@) =~= seq!["space"@, spec_dec(space@.index as nat), "--destroy"@]);
    }
    Some(v)
}

/// Law: with empty-space reaping disabled, the space-changed workflow
/// destroys no space, whatever the space and its windows hold.
pub proof fn lemma_reap_disabled(space: SpaceView, ws: Seq<WindowView>)
    ensures
        !spec_should_reap(space, ws, false),
{
}

/// The first space with the given id.
pub open spec fn spec_find_space(ss: Seq<SpaceView>, id: u32) -> Option<SpaceView>
    decreases ss.len(),
{
    if ss.len() == 0 {
        None
    } else if ss.first().id == id {
        Some(ss.first())
    } else {
        spec_find_space(ss.drop_first(), id)
    }
}

/// Look a space up by id in a listing; absence is a recoverable condition,
/// never a crash.
pub fn find_space_by_id(spaces: &Vec<Space>, id: u32) -> (r: Option<Space>)
    ensures
        r is Some <==> spec_find_space(space_views(spaces@), id) is Some,
        r matches Some(sp) ==> spec_find_space(space_views(spaces@), id) == Some(sp@),
{
    let ghost vs = space_views(spaces@);
    proof {
        assert(vs.skip(0) =~= vs);
    }
    let mut i: usize = 0;
    while i < spaces.len()
        invariant
            0 <= i <= spaces@.len(),
            vs == space_views(spaces@),
            spec_find_space(vs, id) == spec_find_space(vs.skip(i as int), id),
        decreases spaces@.len() - i,
    {
        proof {
            assert(vs.skip(i as int).first() == spaces@[i as int]@);
            assert(vs.skip(i as int).drop_first() =~= vs.skip(i + 1));
        }
        if spaces[i].id == id {
            return Some(spaces[i].clone());
        }
        i += 1;
    }
    proof {
        assert(vs.skip(vs.len() as int).len() == 0);
    }
    None
}

/// Some configured scratchpad stands for this window.
pub open spec fn spec_any_scratchpad_match(sps: Seq<ScratchpadView>, w: WindowView) -> bool {
    exists|i: int| 0 <= i < sps.len() && spec_scratchpad_matches(#[trigger] sps[i], w)
}

/// The focused-window workflow's test: whether the frontmost application is
/// to be hidden because the focused window belongs to a scratchpad.  No
/// match is the common case, not an error.
pub fn should_hide_focused(scratchpads: &Vec<Scratchpad>, focused: &Window) -> (r: bool)
    ensures
        r == spec_any_scratchpad_match(scratchpad_views(scratchpads@), focused@),
{
    let ghost sps = scratchpad_views(scratchpads@);
    let mut i: usize = 0;
    while i < scratchpads.len()
        invariant
            0 <= i <= scratchpads@.len(),
            sps == scratchpad_views(scratchpads@),
            forall|k: int| 0 <= k < i ==> !spec_scratchpad_matches(#[trigger] sps[k], focused@),
        decreases scratchpads@.len() - i,
    {
        if scratchpad_matches(&scratchpads[i], focused) {
            proof {
                assert(spec_scratchpad_matches(sps[i as int], focused@));
            }
            return true;
        }
        i += 1;
    }
    false
}

} // verus!
