use yctrl::cli::edge_position;
use yctrl::cli::edge_window_id;
use yctrl::cli::normalize_command;
use yctrl::cli::should_just_redirect;
use yctrl::cli::wrap_index;
use yctrl::cli::wrap_target_window;
use yctrl::text::str_eq;
use yctrl::text::trim_bytes;
use yctrl::yabai::models::Space;
use yctrl::yabai::models::Window;

fn window(id: u32, has_focus: bool) -> Window {
    Window {
        id,
        app: "A".to_string(),
        title: "t".to_string(),
        subrole: "AXStandardWindow".to_string(),
        has_focus,
        is_minimized: false,
        is_hidden: false,
        is_floating: false,
    }
}

#[test]
fn only_the_postprocessed_commands_are_kept_back() {
    assert!(should_just_redirect("display"));
    assert!(should_just_redirect("query"));
    assert!(!should_just_redirect("focus"));
    assert!(!should_just_redirect("swap"));
    assert!(!should_just_redirect("move"));
    assert!(!should_just_redirect("warp"));
    assert!(!should_just_redirect("space"));
    assert!(!should_just_redirect("inc"));
    assert!(!should_just_redirect("make"));
}

#[test]
fn commands_are_normalized_to_flag_spelling() {
    assert_eq!(normalize_command("focus"), "--focus");
}

#[test]
fn wrap_goes_to_the_opposite_end() {
    assert_eq!(wrap_index(0, 3, true), 1);
    assert_eq!(wrap_index(2, 3, true), 0);
    assert_eq!(wrap_index(2, 3, false), 1);
    assert_eq!(wrap_index(0, 3, false), 2);
    assert_eq!(wrap_index(0, 1, true), 0);
    assert_eq!(wrap_index(0, 1, false), 0);
}

#[test]
fn the_wrap_target_follows_the_space_window_order() {
    let space = Space {
        id: 1,
        index: 1,
        label: String::new(),
        windows: vec![10, 20, 30],
        first_window: 10,
        last_window: 30,
        has_focus: true,
        is_visible: true,
        is_native_fullscreen: false,
    };
    let ws = vec![window(10, false), window(20, true), window(30, false)];
    assert_eq!(wrap_target_window(&space, &ws, true), Some(30));
    assert_eq!(wrap_target_window(&space, &ws, false), Some(10));
    let edge = vec![window(10, false), window(20, false), window(30, true)];
    assert_eq!(wrap_target_window(&space, &edge, true), Some(10));
    let nobody = vec![window(10, false)];
    assert_eq!(wrap_target_window(&space, &nobody, true), None);
    let stranger = vec![window(99, true)];
    assert_eq!(wrap_target_window(&space, &stranger, true), None);
}

#[test]
fn the_edge_fallbacks() {
    let space = Space {
        id: 1,
        index: 1,
        label: String::new(),
        windows: vec![10, 20],
        first_window: 10,
        last_window: 20,
        has_focus: true,
        is_visible: true,
        is_native_fullscreen: false,
    };
    assert_eq!(edge_window_id(&space, true), 10);
    assert_eq!(edge_window_id(&space, false), 20);
    assert_eq!(edge_position(true), "first");
    assert_eq!(edge_position(false), "last");
}

#[test]
fn text_helpers() {
    assert!(str_eq("abc", "abc"));
    assert!(!str_eq("abc", "abd"));
    assert_eq!(trim_bytes(b"  hi there\r\n"), b"hi there".to_vec());
    assert_eq!(trim_bytes(b""), Vec::<u8>::new());
    assert_eq!(trim_bytes(b" \t "), Vec::<u8>::new());
}
