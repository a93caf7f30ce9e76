use yctrl::config::Config;
use yctrl::config::ConfigError;
use yctrl::engine::reap_decision;
use yctrl::scratchpad::Scratchpad;
use yctrl::scratchpad::ScratchpadEvent;
use yctrl::scratchpad::TargetKind;
use yctrl::scratchpad::ToggleAction;
use yctrl::scratchpad::ToggleError;
use yctrl::state::State;
use yctrl::yabai::models::Space;
use yctrl::yabai::models::Window;

fn toks(parts: &[&str]) -> Vec<Vec<u8>> {
    parts.iter().map(|p| p.as_bytes().to_vec()).collect()
}

fn focused_window(app: &str, title: &str) -> Window {
    Window {
        id: 77,
        app: app.to_string(),
        title: title.to_string(),
        subrole: "AXStandardWindow".to_string(),
        has_focus: true,
        is_minimized: false,
        is_hidden: false,
        is_floating: false,
    }
}

fn term_scratchpad() -> Scratchpad {
    Scratchpad {
        tag: "term".to_string(),
        kind: TargetKind::App,
        target: "Terminal".to_string(),
        command: vec!["alacritty".to_string(), "--class".to_string(), "term".to_string()],
        timeout: None,
        space: None,
    }
}

#[test]
fn the_defaults() {
    let c = Config::default();
    assert_eq!(*c.auto_close_empty_spaces(), true);
    assert_eq!(c.scratchpad_launch_timeout(), 10);
    assert_eq!(c.scratchpad_space(), 8);
    assert_eq!(c.scratchpad_grid(), "6:4:1:1:2:4");
    assert!(c.scratchpads().is_empty());
}

#[test]
fn the_grid_reads_back_exactly_as_set() {
    let mut c = Config::default();
    assert!(c.set_scratchpad_grid_with_str("4:4:2:2:1:2").is_ok());
    assert_eq!(c.scratchpad_grid(), "4:4:2:2:1:2");
}

#[test]
fn disabling_reaping_makes_the_reap_step_a_no_op() {
    let mut state = State::default();
    let r = state.handle(&toks(&["yctrl_auto_close_empty_spaces", "false"]));
    assert_eq!(r, Ok(vec![]));
    assert_eq!(*state.config.auto_close_empty_spaces(), false);
    // an otherwise-eligible empty space is left alone
    let sp = Space {
        id: 4,
        index: 2,
        label: String::new(),
        windows: vec![],
        first_window: 0,
        last_window: 0,
        has_focus: false,
        is_visible: false,
        is_native_fullscreen: false,
    };
    assert_eq!(reap_decision(&sp, &vec![], *state.config.auto_close_empty_spaces()), None);
    // and with the toggle back on it is destroyed again
    assert!(state.handle(&toks(&["yctrl_auto_close_empty_spaces", "true"])).is_ok());
    assert!(reap_decision(&sp, &vec![], *state.config.auto_close_empty_spaces()).is_some());
}

#[test]
fn boolean_values_are_validated() {
    let mut c = Config::default();
    assert_eq!(
        c.set_auto_close_empty_spaces_with_str("yes"),
        Err(ConfigError::InvalidBool(b"yes".to_vec()))
    );
    assert_eq!(*c.auto_close_empty_spaces(), true);
}

#[test]
fn numeric_values_are_validated() {
    let mut c = Config::default();
    assert!(c.set_scratchpad_launch_timeout_with_str("30").is_ok());
    assert_eq!(c.scratchpad_launch_timeout(), 30);
    assert_eq!(
        c.set_scratchpad_launch_timeout_with_str("300"),
        Err(ConfigError::InvalidNumber(b"300".to_vec()))
    );
    assert!(c.set_scratchpad_space_with_str("5").is_ok());
    assert_eq!(c.scratchpad_space(), 5);
    assert_eq!(
        c.set_scratchpad_space_with_str("five"),
        Err(ConfigError::InvalidNumber(b"five".to_vec()))
    );
}

#[test]
fn scratchpads_parse_from_the_relaxed_payload() {
    let mut c = Config::default();
    let payload = "[{tag: 'term', kind: 'app', target: 'Terminal', command: ['alacritty'], space: 2}]";
    assert!(c.set_scratchpads_with_str(payload).is_ok());
    let sps = c.scratchpads();
    assert_eq!(sps.len(), 1);
    assert_eq!(sps[0].tag, "term");
    assert!(sps[0].kind.is_app());
    assert_eq!(sps[0].target, "Terminal");
    assert_eq!(sps[0].command, vec!["alacritty"]);
    assert_eq!(sps[0].timeout, None);
    assert_eq!(sps[0].space, Some(2));
    assert_eq!(c.scratchpad_by_tag("term").map(|sp| sp.tag.as_str()), Some("term"));
    assert!(c.scratchpad_by_tag("mail").is_none());
}

#[test]
fn malformed_scratchpad_payloads_are_rejected_unapplied() {
    let mut c = Config::default();
    assert_eq!(
        c.set_scratchpads_with_str("not json"),
        Err(ConfigError::InvalidScratchpads)
    );
    assert_eq!(
        c.set_scratchpads_with_str("[{tag: 't', kind: 'door', target: 'x', command: []}]"),
        Err(ConfigError::InvalidScratchpads)
    );
    assert_eq!(
        c.set_scratchpads_with_str(
            "[{tag: 't', kind: 'app', target: 'x', command: []},\
             {tag: 't', kind: 'title', target: 'y', command: []}]",
        ),
        Err(ConfigError::DuplicateTag)
    );
    assert!(c.scratchpads().is_empty());
}

#[test]
fn rule_registration_commands_follow_a_scratchpad_update() {
    let mut state = State::default();
    assert!(state.handle(&toks(&["yctrl_scratchpad_grid", "4:4:2:2:1:2"])).is_ok());
    let cmds = state
        .handle(&toks(&[
            "yctrl_scratchpads",
            "[{tag:",
            "'term',",
            "kind:",
            "'app',",
            "target:",
            "'Terminal',",
            "command:",
            "['alacritty']}]",
        ]))
        .unwrap();
    assert_eq!(
        cmds,
        vec![vec![
            "rule".to_string(),
            "--add".to_string(),
            "app=^Terminal$".to_string(),
            "grid=4:4:2:2:1:2".to_string(),
            "manage=off".to_string(),
        ]]
    );
}

#[test]
fn title_scratchpads_register_a_title_rule() {
    let config = Config::default();
    let sp = Scratchpad {
        tag: "notes".to_string(),
        kind: TargetKind::Title,
        target: "Notes".to_string(),
        command: vec!["open".to_string()],
        timeout: None,
        space: None,
    };
    assert_eq!(
        sp.configure_args(&config),
        vec!["rule", "--add", "title=^Notes$", "grid=6:4:1:1:2:4", "manage=off"]
    );
}

#[test]
fn unknown_keys_and_malformed_requests_fail() {
    let mut state = State::default();
    assert_eq!(
        state.handle(&toks(&["yctrl_sides", "3"])),
        Err(ConfigError::UnknownKey(b"yctrl_sides".to_vec()))
    );
    assert_eq!(state.handle(&toks(&[])), Err(ConfigError::MissingKey));
    assert_eq!(
        state.handle(&toks(&["yctrl_scratchpad_grid"])),
        Err(ConfigError::MissingValue)
    );
}

#[test]
fn toggling_a_showing_scratchpad_hides_it_and_spawns_nothing() {
    let mut c = Config::default();
    assert!(c.set_scratchpads(vec![term_scratchpad()]).is_ok());
    let focused = focused_window("Terminal", "zsh");
    assert_eq!(
        ScratchpadEvent::toggle_decision(&c, "term", &focused),
        Ok(ToggleAction::Hide(77))
    );
}

#[test]
fn toggling_an_absent_scratchpad_launches_it_and_hides_nothing() {
    let mut c = Config::default();
    assert!(c.set_scratchpads(vec![term_scratchpad()]).is_ok());
    let focused = focused_window("Finder", "files");
    assert_eq!(
        ScratchpadEvent::toggle_decision(&c, "term", &focused),
        Ok(ToggleAction::Launch(vec![
            "alacritty".to_string(),
            "--class".to_string(),
            "term".to_string(),
        ]))
    );
}

#[test]
fn a_value_that_is_not_text_is_rejected() {
    let mut state = State::default();
    let mut tokens = toks(&["yctrl_scratchpad_grid"]);
    tokens.push(vec![0xFF, 0xFE]);
    assert_eq!(
        state.handle(&tokens),
        Err(ConfigError::InvalidText(vec![0xFF, 0xFE]))
    );
    assert_eq!(state.config.scratchpad_grid(), "6:4:1:1:2:4");
}

#[test]
fn an_empty_scratchpad_list_is_accepted() {
    let mut c = Config::default();
    assert!(c.set_scratchpads_with_str("[]").is_ok());
    assert!(c.scratchpads().is_empty());
}

#[test]
fn toggling_a_scratchpad_with_an_empty_command_fails() {
    let mut c = Config::default();
    let mut sp = term_scratchpad();
    sp.command = vec![];
    assert!(c.set_scratchpads(vec![sp]).is_ok());
    let focused = focused_window("Finder", "files");
    assert_eq!(
        ScratchpadEvent::toggle_decision(&c, "term", &focused),
        Err(ToggleError::EmptyCommand)
    );
}

#[test]
fn toggling_an_unknown_tag_fails() {
    let c = Config::default();
    let focused = focused_window("Terminal", "zsh");
    assert_eq!(
        ScratchpadEvent::toggle_decision(&c, "mail", &focused),
        Err(ToggleError::UnknownTag("mail".to_string()))
    );
}

#[test]
fn title_scratchpads_match_by_title() {
    let mut c = Config::default();
    let sp = Scratchpad {
        tag: "notes".to_string(),
        kind: TargetKind::Title,
        target: "Notes".to_string(),
        command: vec!["open".to_string(), "-a".to_string(), "Notes".to_string()],
        timeout: None,
        space: None,
    };
    assert!(c.set_scratchpads(vec![sp]).is_ok());
    let by_title = focused_window("SomeApp", "Notes");
    assert_eq!(
        ScratchpadEvent::toggle_decision(&c, "notes", &by_title),
        Ok(ToggleAction::Hide(77))
    );
    let other = focused_window("Notes", "scratch");
    assert!(matches!(
        ScratchpadEvent::toggle_decision(&c, "notes", &other),
        Ok(ToggleAction::Launch(_))
    ));
}

#[test]
fn duplicate_tags_are_rejected_wholesale() {
    let mut c = Config::default();
    let a = term_scratchpad();
    let mut b = term_scratchpad();
    b.target = "Other".to_string();
    assert_eq!(c.set_scratchpads(vec![a, b]), Err(ConfigError::DuplicateTag));
    assert!(c.scratchpads().is_empty());
}
