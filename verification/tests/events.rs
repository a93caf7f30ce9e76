use yctrl::event;
use yctrl::yabai::events::ApplicationEvent;
use yctrl::yabai::events::DisplayEvent;
use yctrl::yabai::events::Event;
use yctrl::yabai::events::EventError;
use yctrl::yabai::events::MissionControlEvent;
use yctrl::yabai::events::SpaceEvent;
use yctrl::yabai::events::WindowEvent;

fn toks(parts: &[&str]) -> Vec<Vec<u8>> {
    parts.iter().map(|p| p.as_bytes().to_vec()).collect()
}

#[test]
fn types_parse_string_to_event() {
    let parse = |text: &str| -> event::Event {
        match event::Event::from_bytes(text.as_bytes()) {
            Ok(e) => e,
            Err(e) => panic!("{e:?}"),
        }
    };
    match parse("mission_control_exit") {
        event::Event::MissionControl(e) => assert!(e.is_exit_event()),
        _ => panic!("enable to parse {}", "mission_control_exit"),
    }
    match parse("mission_control_enter") {
        event::Event::MissionControl(e) => assert!(e.is_enter_event()),
        _ => panic!("enable to parse {}", "mission_control_enter"),
    }
    match parse("window_moved") {
        event::Event::Window(e) => assert!(e.is_move_event()),
        _ => panic!("enable to parse {}", "window_moved"),
    }
    match parse("window_focused") {
        event::Event::Window(e) => assert!(e.is_focus_event()),
        _ => panic!("enable to parse {}", "window_focused"),
    }
    match parse("window_resized") {
        event::Event::Window(e) => assert!(e.is_resize_event()),
        _ => panic!("enable to parse {}", "window_resized"),
    }
    match parse("window_created") {
        event::Event::Window(e) => assert!(e.is_create_event()),
        _ => panic!("enable to parse {}", "window_created"),
    }
    match parse("window_destroyed") {
        event::Event::Window(e) => assert!(e.is_destory_event()),
        _ => panic!("enable to parse {}", "window_destroyed"),
    }
    match parse("window_minimized") {
        event::Event::Window(e) => assert!(e.is_minimize_event()),
        _ => panic!("enable to parse {}", "window_minimized"),
    }
    match parse("window_deminimized") {
        event::Event::Window(e) => assert!(e.is_deminimize_event()),
        _ => panic!("enable to parse {}", "window_deminimized"),
    }
    match parse("window_title_changed") {
        event::Event::Window(e) => assert!(e.is_title_change_event()),
        _ => panic!("enable to parse {}", "window_title_changed"),
    }
    match parse("application_terminated") {
        event::Event::Application(e) => assert!(e.is_terminate_event()),
        _ => panic!("enable to parse {}", "application_terminated"),
    }
    match parse("application_hidden") {
        event::Event::Application(e) => assert!(e.is_hidden_event()),
        _ => panic!("enable to parse {}", "application_hidden"),
    }
    match parse("application_visible") {
        event::Event::Application(e) => assert!(e.is_visible_event()),
        _ => panic!("enable to parse {}", "application_visible"),
    }
    match parse("application_launched") {
        event::Event::Application(e) => assert!(e.is_launch_event()),
        _ => panic!("enable to parse {}", "application_launched"),
    }
    match parse("application_front_switched") {
        event::Event::Application(e) => assert!(e.is_front_switch_event()),
        _ => panic!("enable to parse {}", "application_front_switched"),
    }
    match parse("application_activated") {
        event::Event::Application(e) => assert!(e.is_activate_event()),
        _ => panic!("enable to parse {}", "application_activated"),
    }
    match parse("application_deactivated") {
        event::Event::Application(e) => assert!(e.is_deactivate_event()),
        _ => panic!("enable to parse {}", "application_deactivated"),
    }
    match parse("space_changed") {
        event::Event::Space(e) => assert!(e.is_change_event()),
        _ => panic!("enable to parse {}", "space_changed"),
    }
    match parse("display_changed") {
        event::Event::Display(e) => assert!(e.is_change_event()),
        _ => panic!("enable to parse {}", "display_changed"),
    }
    match parse("display_added") {
        event::Event::Display(e) => assert!(e.is_add_event()),
        _ => panic!("enable to parse {}", "display_added"),
    }
    match parse("display_moved") {
        event::Event::Display(e) => assert!(e.is_move_event()),
        _ => panic!("enable to parse {}", "display_moved"),
    }
    match parse("display_removed") {
        event::Event::Display(e) => assert!(e.is_remove_event()),
        _ => panic!("enable to parse {}", "display_removed"),
    }
    match parse("display_resized") {
        event::Event::Display(e) => assert!(e.is_resize_event()),
        _ => panic!("enable to parse {}", "display_resized"),
    }
}

#[test]
fn yabai_parse_string_to_event() {
    let parse = |parts: &[&str]| -> Event {
        match Event::parse(&toks(parts)) {
            Ok(e) => e,
            Err(e) => panic!("{e:?}"),
        }
    };
    assert_eq!(
        parse(&["mission_control_exit"]),
        Event::MissionControl(MissionControlEvent::Exit)
    );
    assert_eq!(
        parse(&["mission_control_enter"]),
        Event::MissionControl(MissionControlEvent::Enter)
    );
    assert_eq!(
        parse(&["window_moved", "2"]),
        Event::Window(WindowEvent::Moved { window_id: 2 })
    );
    assert_eq!(
        parse(&["window_focused", "2"]),
        Event::Window(WindowEvent::Focused { window_id: 2 })
    );
    assert_eq!(
        parse(&["window_resized", "2"]),
        Event::Window(WindowEvent::Resized { window_id: 2 })
    );
    assert_eq!(
        parse(&["window_created", "3"]),
        Event::Window(WindowEvent::Created { window_id: 3 })
    );
    assert_eq!(
        parse(&["window_destroyed", "4"]),
        Event::Window(WindowEvent::Destroyed { window_id: 4 })
    );
    assert_eq!(
        parse(&["window_minimized", "4"]),
        Event::Window(WindowEvent::Minimized { window_id: 4 })
    );
    assert_eq!(
        parse(&["window_deminimized", "5"]),
        Event::Window(WindowEvent::Deminimized { window_id: 5 })
    );
    assert_eq!(
        parse(&["application_hidden"]),
        Event::Application(ApplicationEvent::Hidden)
    );
    assert_eq!(
        parse(&["application_visible"]),
        Event::Application(ApplicationEvent::Visible)
    );
    assert_eq!(
        parse(&["space_changed", "3", "4"]),
        Event::Space(SpaceEvent::Changed { space_id: 3, recent_space_id: 4 })
    );
    assert_eq!(parse(&["display_changed"]), Event::Display(DisplayEvent::Changed));
    assert_eq!(parse(&["display_added"]), Event::Display(DisplayEvent::Added));
    assert_eq!(parse(&["display_moved"]), Event::Display(DisplayEvent::Moved));
    assert_eq!(parse(&["display_removed"]), Event::Display(DisplayEvent::Removed));
    assert_eq!(parse(&["display_resized"]), Event::Display(DisplayEvent::Resized));
}

#[test]
fn events_describe_themselves() {
    assert_eq!(
        Event::Window(WindowEvent::Created { window_id: 42 }).describe(),
        "Window Created (42)"
    );
    assert_eq!(
        Event::Space(SpaceEvent::Changed { space_id: 3, recent_space_id: 4 }).describe(),
        "Space Changed (r:4, n:3)"
    );
    assert_eq!(
        Event::MissionControl(MissionControlEvent::Enter).describe(),
        "Mission Control Enter"
    );
    assert_eq!(Event::Display(DisplayEvent::Removed).describe(), "Display Removed");
    assert_eq!(
        Event::Application(ApplicationEvent::Hidden).describe(),
        "Application Hidden"
    );
}

#[test]
fn window_created_carries_its_id() {
    assert_eq!(
        Event::parse(&toks(&["window_created", "42"])),
        Ok(Event::Window(WindowEvent::Created { window_id: 42 }))
    );
}

#[test]
fn unknown_token_fails_and_carries_the_token() {
    match Event::parse(&toks(&["banana"])) {
        Err(EventError::Unsupported(t)) => assert_eq!(t, b"banana".to_vec()),
        other => panic!("expected an unsupported-event failure, got {other:?}"),
    }
    match event::Event::from_bytes(b"banana") {
        Err(yctrl::event::EventError::Unsupported(t)) => assert_eq!(t, b"banana".to_vec()),
        other => panic!("expected an unsupported-event failure, got {other:?}"),
    }
}

#[test]
fn space_changed_argument_order_is_significant() {
    assert_eq!(
        Event::parse(&toks(&["space_changed", "3", "4"])),
        Ok(Event::Space(SpaceEvent::Changed { space_id: 3, recent_space_id: 4 }))
    );
    assert_eq!(
        Event::parse(&toks(&["space_changed", "4", "3"])),
        Ok(Event::Space(SpaceEvent::Changed { space_id: 4, recent_space_id: 3 }))
    );
    assert_ne!(
        Event::parse(&toks(&["space_changed", "3", "4"])),
        Event::parse(&toks(&["space_changed", "4", "3"]))
    );
}

#[test]
fn missing_and_invalid_id_arguments_are_distinct_failures() {
    assert_eq!(
        Event::parse(&toks(&["window_created"])),
        Err(EventError::MissingArgument(b"window_created".to_vec()))
    );
    assert_eq!(
        Event::parse(&toks(&["window_created", "many"])),
        Err(EventError::InvalidArgument(b"many".to_vec()))
    );
    assert_eq!(
        Event::parse(&toks(&["space_changed", "3"])),
        Err(EventError::MissingArgument(b"space_changed".to_vec()))
    );
    assert_eq!(Event::parse(&[]), Err(EventError::NoToken));
}
