use yctrl::yabai::models::spaces_from_json;
use yctrl::yabai::models::windows_from_json;
use yctrl::yabai::models::Space;
use yctrl::yabai::models::Window;
use yctrl::yabai::socket::filter_listed_windows;
use yctrl::yabai::socket::filter_nonhelper_windows;
use yctrl::yabai::socket::find_window_by_id;
use yctrl::yabai::socket::focused_space_query_args;
use yctrl::yabai::socket::focused_window_query_args;
use yctrl::yabai::socket::last_window_query_args;
use yctrl::yabai::socket::spaces_query_args;
use yctrl::yabai::socket::windows_query_args;
use yctrl::yabai::socket::QuerySession;
use yctrl::yabai::socket::QueryStep;
use yctrl::yabai::Socket;
use yctrl::json::parse_json;

fn window(id: u32, app: &str, title: &str, subrole: &str) -> Window {
    Window {
        id,
        app: app.to_string(),
        title: title.to_string(),
        subrole: subrole.to_string(),
        has_focus: false,
        is_minimized: false,
        is_hidden: false,
        is_floating: false,
    }
}

const SPACE_REPLY: &str = r#"[{
    "id": 9, "index": 3, "label": "web",
    "windows": [101, 102],
    "first-window": 101, "last-window": 102,
    "has-focus": false, "is-visible": false, "is-native-fullscreen": false
}]"#;

#[test]
fn empty_reply_is_retried_then_the_next_reply_decodes() {
    let mut session = QuerySession::new(spaces_query_args(), 3);
    assert_eq!(session.on_reply(b""), QueryStep::Retry);
    assert_eq!(session.retries_left, 2);
    match session.on_reply(SPACE_REPLY.as_bytes()) {
        QueryStep::Done(doc) => {
            let spaces = spaces_from_json(&doc).unwrap();
            assert_eq!(spaces.len(), 1);
            assert_eq!(spaces[0].id, 9);
            assert_eq!(spaces[0].index, 3);
            assert_eq!(spaces[0].label, "web");
            assert_eq!(spaces[0].windows, vec![101, 102]);
            assert_eq!(spaces[0].first_window, 101);
            assert_eq!(spaces[0].last_window, 102);
            assert!(!spaces[0].has_focus);
        },
        other => panic!("expected a decoded reply, got {other:?}"),
    }
}

#[test]
fn empty_replies_exhaust_the_retry_budget() {
    let mut session = QuerySession::new(spaces_query_args(), 1);
    assert_eq!(session.on_reply(b""), QueryStep::Retry);
    assert_eq!(session.on_reply(b""), QueryStep::GaveUp);
}

#[test]
fn a_malformed_reply_is_a_fatal_decode_failure() {
    let mut session = QuerySession::new(spaces_query_args(), 3);
    assert_eq!(session.on_reply(b"not json"), QueryStep::Malformed);
}

#[test]
fn window_replies_decode() {
    let reply = r#"[{"id": 7, "app": "Terminal", "title": "zsh", "subrole": "AXStandardWindow",
        "frame": {"x": 0.0, "y": 0.0, "w": 800.0, "h": 600.0},
        "has-focus": true, "is-minimized": false, "is-hidden": false, "is-floating": true}]"#;
    let doc = parse_json(reply.as_bytes()).unwrap();
    let ws = windows_from_json(&doc).unwrap();
    assert_eq!(ws.len(), 1);
    assert_eq!(ws[0].id, 7);
    assert_eq!(ws[0].app, "Terminal");
    assert_eq!(ws[0].title, "zsh");
    assert!(ws[0].has_focus);
    assert!(ws[0].is_floating);
}

#[test]
fn a_space_reply_missing_a_field_is_rejected() {
    let doc = parse_json(b"[{\"id\": 9}]").unwrap();
    assert!(spaces_from_json(&doc).is_none());
}

#[test]
fn listings_drop_the_helper_class_and_hidden_windows() {
    let mut helper = window(1, "Hammerspoon", "console", "AXUnknown.Hammerspoon");
    helper.has_focus = true;
    let mut minimized = window(2, "Mail", "inbox", "AXStandardWindow");
    minimized.is_minimized = true;
    let mut hidden = window(3, "Music", "player", "AXStandardWindow");
    hidden.is_hidden = true;
    let kept = window(4, "Safari", "docs", "AXStandardWindow");
    let all = vec![helper, minimized, hidden, kept.clone()];
    assert_eq!(filter_listed_windows(&all), vec![kept]);
}

#[test]
fn the_reaping_listing_keeps_minimized_windows_but_not_the_helper() {
    let helper = window(1, "Hammerspoon", "console", "AXUnknown.Hammerspoon");
    let mut minimized = window(2, "Mail", "inbox", "AXStandardWindow");
    minimized.is_minimized = true;
    let kept = vec![minimized.clone()];
    assert_eq!(filter_nonhelper_windows(&vec![helper, minimized]), kept);
}

#[test]
fn window_lookup_finds_the_first_match() {
    let ws = vec![window(1, "A", "a", "s"), window(2, "B", "b", "s")];
    assert_eq!(find_window_by_id(&ws, 2), Some(ws[1].clone()));
    assert_eq!(find_window_by_id(&ws, 9), None);
}

#[test]
fn the_socket_path_is_derived_from_the_user() {
    let s = Socket::from_user("pat");
    assert_eq!(s.path, "/tmp/yabai_pat.socket");
}

#[test]
fn the_standard_query_argument_lists() {
    assert_eq!(spaces_query_args(), vec!["query", "--spaces"]);
    assert_eq!(focused_space_query_args(), vec!["query", "--spaces", "--space"]);
    assert_eq!(focused_window_query_args(), vec!["query", "--windows", "--window"]);
    assert_eq!(
        last_window_query_args(),
        vec!["query", "--windows", "--window", "last"]
    );
    assert_eq!(windows_query_args("current"), vec!["query", "--windows", "--space"]);
    assert_eq!(windows_query_args("all"), vec!["query", "--windows"]);
    assert_eq!(
        windows_query_args("3"),
        vec!["query", "--windows", "--space", "3"]
    );
}

#[test]
fn synthetic_space_values_round_trip_through_the_decoder() {
    let space = Space {
        id: 9,
        index: 3,
        label: "web".to_string(),
        windows: vec![101, 102],
        first_window: 101,
        last_window: 102,
        has_focus: false,
        is_visible: false,
        is_native_fullscreen: false,
    };
    let doc = parse_json(SPACE_REPLY.as_bytes()).unwrap();
    assert_eq!(spaces_from_json(&doc).unwrap(), vec![space]);
}
