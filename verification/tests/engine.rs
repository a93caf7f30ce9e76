use yctrl::engine::dispatch;
use yctrl::engine::find_space_by_id;
use yctrl::engine::focus_correction;
use yctrl::engine::focus_fallback_args;
use yctrl::engine::focus_mouse_args;
use yctrl::engine::focus_window_args;
use yctrl::engine::reap_decision;
use yctrl::engine::should_hide_focused;
use yctrl::engine::EventAction;
use yctrl::engine::FocusStep;
use yctrl::engine::NotSupported;
use yctrl::scratchpad::Scratchpad;
use yctrl::scratchpad::TargetKind;
use yctrl::yabai::events::ApplicationEvent;
use yctrl::yabai::events::DisplayEvent;
use yctrl::yabai::events::Event;
use yctrl::yabai::events::MissionControlEvent;
use yctrl::yabai::events::SpaceEvent;
use yctrl::yabai::events::WindowEvent;
use yctrl::yabai::models::Space;
use yctrl::yabai::models::Window;

fn window(id: u32, app: &str) -> Window {
    Window {
        id,
        app: app.to_string(),
        title: "t".to_string(),
        subrole: "AXStandardWindow".to_string(),
        has_focus: false,
        is_minimized: false,
        is_hidden: false,
        is_floating: false,
    }
}

fn space(index: u32) -> Space {
    Space {
        id: 20,
        index,
        label: String::new(),
        windows: vec![],
        first_window: 0,
        last_window: 0,
        has_focus: false,
        is_visible: false,
        is_native_fullscreen: false,
    }
}

#[test]
fn events_map_to_their_workflows() {
    assert_eq!(
        dispatch(&Event::Space(SpaceEvent::Changed { space_id: 3, recent_space_id: 4 })),
        Ok(EventAction::SpaceChanged { space_id: 3, recent_space_id: 4 })
    );
    assert_eq!(
        dispatch(&Event::Window(WindowEvent::Destroyed { window_id: 8 })),
        Ok(EventAction::FocusLastWindow)
    );
    assert_eq!(
        dispatch(&Event::Window(WindowEvent::Minimized { window_id: 8 })),
        Ok(EventAction::FocusLastWindow)
    );
    assert_eq!(
        dispatch(&Event::Window(WindowEvent::Focused { window_id: 8 })),
        Ok(EventAction::ScratchpadCheck)
    );
    assert_eq!(
        dispatch(&Event::Window(WindowEvent::Created { window_id: 8 })),
        Ok(EventAction::Ignore)
    );
    assert_eq!(dispatch(&Event::Display(DisplayEvent::Added)), Err(NotSupported));
    assert_eq!(
        dispatch(&Event::Application(ApplicationEvent::Hidden)),
        Err(NotSupported)
    );
    assert_eq!(
        dispatch(&Event::MissionControl(MissionControlEvent::Enter)),
        Err(NotSupported)
    );
}

#[test]
fn an_eligible_empty_space_is_destroyed_exactly_once() {
    let sp = space(3);
    let cmd = reap_decision(&sp, &vec![], true);
    assert_eq!(cmd, Some(vec!["space".to_string(), "3".to_string(), "--destroy".to_string()]));
}

#[test]
fn a_focused_space_is_kept() {
    let mut sp = space(3);
    sp.has_focus = true;
    assert_eq!(reap_decision(&sp, &vec![], true), None);
}

#[test]
fn visible_or_fullscreen_spaces_are_kept() {
    let mut sp = space(3);
    sp.is_visible = true;
    assert_eq!(reap_decision(&sp, &vec![], true), None);
    let mut sp = space(3);
    sp.is_native_fullscreen = true;
    assert_eq!(reap_decision(&sp, &vec![], true), None);
}

#[test]
fn a_space_with_only_hidden_windows_is_destroyed() {
    let sp = space(5);
    let mut w1 = window(1, "A");
    w1.is_minimized = true;
    let mut w2 = window(2, "B");
    w2.is_hidden = true;
    assert_eq!(
        reap_decision(&sp, &vec![w1, w2], true),
        Some(vec!["space".to_string(), "5".to_string(), "--destroy".to_string()])
    );
}

#[test]
fn a_space_with_a_showing_window_is_kept() {
    let sp = space(5);
    assert_eq!(reap_decision(&sp, &vec![window(1, "A")], true), None);
}

#[test]
fn reaping_disabled_is_a_no_op_for_an_eligible_space() {
    assert_eq!(reap_decision(&space(3), &vec![], false), None);
}

#[test]
fn focus_correction_steps() {
    assert_eq!(focus_correction(&vec![]), FocusStep::NoWindows);
    let mut minimized = window(1, "A");
    minimized.is_minimized = true;
    assert_eq!(focus_correction(&vec![minimized]), FocusStep::NoWindows);
    let mut focused = window(2, "B");
    focused.has_focus = true;
    assert_eq!(
        focus_correction(&vec![window(1, "A"), focused]),
        FocusStep::AlreadyFocused
    );
    assert_eq!(focus_correction(&vec![window(1, "A")]), FocusStep::FocusMouse);
}

#[test]
fn the_focus_fallback_picks_the_first_remaining_window() {
    let mut minimized = window(1, "A");
    minimized.is_minimized = true;
    let args = focus_fallback_args(&vec![minimized, window(7, "B"), window(8, "C")]);
    assert_eq!(
        args,
        Some(vec!["window".to_string(), "--focus".to_string(), "7".to_string()])
    );
    assert_eq!(focus_fallback_args(&vec![]), None);
}

#[test]
fn focus_command_argument_lists() {
    assert_eq!(focus_mouse_args(), vec!["window", "--focus", "mouse"]);
    assert_eq!(focus_window_args(1234), vec!["window", "--focus", "1234"]);
}

#[test]
fn space_lookup_by_id() {
    let mut a = space(1);
    a.id = 10;
    let mut b = space(2);
    b.id = 20;
    let spaces = vec![a, b.clone()];
    assert_eq!(find_space_by_id(&spaces, 20), Some(b));
    assert_eq!(find_space_by_id(&spaces, 30), None);
}

#[test]
fn a_focused_scratchpad_window_asks_for_a_hide() {
    let sp = Scratchpad {
        tag: "term".to_string(),
        kind: TargetKind::App,
        target: "Terminal".to_string(),
        command: vec!["alacritty".to_string()],
        timeout: None,
        space: None,
    };
    assert!(should_hide_focused(&vec![sp.clone()], &window(1, "Terminal")));
    assert!(!should_hide_focused(&vec![sp], &window(1, "Finder")));
    assert!(!should_hide_focused(&vec![], &window(1, "Terminal")));
}
