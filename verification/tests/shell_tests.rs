use session_manager::session_core::connection_type::ConnectionType;
use session_manager::session_core::session::Session;
use session_manager::session_core::session_group::SessionGroup;
use session_manager::ui::config::Config;
use session_manager::ui::core_ui::{
    is_no, is_no_trimmed, is_yes, is_yes_trimmed, remove_groups_named, UI,
};
use session_manager::ui::popup_state::{
    sg_prompts, PopupBuilderState, PopupState, PopupStateAction,
};
use session_manager::ui::text_field::{key_kind, KeyKind};
use session_manager::ui::view::{
    connect_selected, find_selected, handle_edit_mode_events, handle_events,
    handle_normal_mode_events, remove_selected, ShellAction,
};
use session_manager::ui::view_state::{checked_count_rows, count_rows, ViewState};
use tui_textarea::{Input, Key};

fn key(key: Key) -> Input {
    Input { key, ctrl: false, alt: false, shift: false }
}

fn press(state: &mut ViewState, c: char) -> ShellAction {
    handle_events(state, key(Key::Char(c)))
}

fn enter(state: &mut ViewState) -> ShellAction {
    handle_events(state, key(Key::Enter))
}

fn submit(state: &mut ViewState, line: &str) {
    for c in line.chars() {
        assert_eq!(press(state, c), ShellAction::Continue);
    }
    assert_eq!(enter(state), ShellAction::Continue);
}

fn session(name: &str) -> Session {
    Session::new(name.to_string(), "u@h:1".to_string(), ConnectionType::SSH)
}

/// Two groups: `a` with the sessions a1 and a2, `b` with the session b1.
fn sample() -> Config {
    let mut config = Config::new();
    config
        .session_groups
        .push(SessionGroup::new("a".to_string(), vec![session("a1"), session("a2")]));
    config.session_groups.push(SessionGroup::new("b".to_string(), vec![session("b1")]));
    config
}

fn names(config: &Config) -> Vec<String> {
    let mut rows = Vec::new();
    for group in config.session_groups.iter() {
        rows.push(group.name.clone());
        for s in group.sessions.iter() {
            rows.push(format!("{}/{}", group.name, s.name));
        }
    }
    rows
}

#[test]
fn wizard_progression() {
    let mut state = ViewState::new(sample());
    assert!(!state.popup_state.is_open());
    assert_eq!(press(&mut state, 'a'), ShellAction::Continue);
    assert!(state.popup_state.is_open());
    assert_eq!(state.popup_state.get_state(), PopupBuilderState::SessionGroupName);
    submit(&mut state, "g1");
    assert_eq!(state.popup_state.get_state(), PopupBuilderState::SessionName);
    submit(&mut state, "p1");
    assert_eq!(state.popup_state.get_state(), PopupBuilderState::SessionConnectionType);
    submit(&mut state, "ssh");
    assert_eq!(state.popup_state.get_state(), PopupBuilderState::SessionData);
    submit(&mut state, "u@h:1");
    assert_eq!(state.popup_state.get_state(), PopupBuilderState::SessionAddConfirm);
    press(&mut state, 'y');
    assert_eq!(state.popup_state.get_state(), PopupBuilderState::SessionAddMore);
    press(&mut state, 'n');
    assert_eq!(state.popup_state.get_state(), PopupBuilderState::SessionGroupConfirm);
    assert_eq!(state.config.session_groups.len(), 2);
    press(&mut state, 'y');
    assert!(!state.popup_state.is_open());
    assert_eq!(state.popup_state.get_state(), PopupBuilderState::SessionGroupName);
    assert!(state.popup_state.temp_session_group.is_none());
    assert_eq!(state.config.session_groups.len(), 3);
    let group = &state.config.session_groups[2];
    assert_eq!(group.name, "g1");
    assert_eq!(group.sessions.len(), 1);
    assert_eq!(group.sessions[0].name, "p1");
    assert_eq!(group.sessions[0].data, "u@h:1");
    assert_eq!(group.sessions[0].connection_type, ConnectionType::SSH);
    assert_eq!(names(&state.config)[..5], names(&sample())[..]);
}

#[test]
fn wizard_loop_keeps_confirmed_sessions_in_order() {
    let mut state = ViewState::new(Config::new());
    press(&mut state, 'a');
    submit(&mut state, "g");
    let entries = [
        ("one", "telnet", "h1", 'y'),
        ("two", "ssh", "u@h2", 'n'),
        ("three", "TELNET", "h3:2323", 'y'),
    ];
    for (i, (name, protocol, endpoint, add)) in entries.iter().enumerate() {
        submit(&mut state, name);
        submit(&mut state, protocol);
        submit(&mut state, endpoint);
        press(&mut state, *add);
        assert_eq!(state.popup_state.get_state(), PopupBuilderState::SessionAddMore);
        if i + 1 < entries.len() {
            press(&mut state, 'y');
            assert_eq!(state.popup_state.get_state(), PopupBuilderState::SessionName);
        } else {
            press(&mut state, 'n');
        }
    }
    assert_eq!(state.popup_state.get_state(), PopupBuilderState::SessionGroupConfirm);
    press(&mut state, 'y');
    assert_eq!(state.config.session_groups.len(), 1);
    let group = &state.config.session_groups[0];
    assert_eq!(group.name, "g");
    assert_eq!(group.sessions.len(), 2);
    assert_eq!(group.sessions[0].name, "one");
    assert_eq!(group.sessions[0].data, "h1");
    assert_eq!(group.sessions[0].connection_type, ConnectionType::Telnet);
    assert_eq!(group.sessions[1].name, "three");
    assert_eq!(group.sessions[1].data, "h3:2323");
    assert_eq!(group.sessions[1].connection_type, ConnectionType::Telnet);
}

#[test]
fn wizard_group_without_sessions() {
    let mut state = ViewState::new(Config::new());
    press(&mut state, 'a');
    submit(&mut state, "empty");
    submit(&mut state, "p");
    submit(&mut state, "ssh");
    submit(&mut state, "h");
    press(&mut state, 'n');
    press(&mut state, 'n');
    press(&mut state, 'y');
    assert_eq!(state.config.session_groups.len(), 1);
    assert_eq!(state.config.session_groups[0].name, "empty");
    assert_eq!(state.config.session_groups[0].sessions.len(), 0);
}

#[test]
fn wizard_group_refused_at_the_end() {
    let mut state = ViewState::new(sample());
    press(&mut state, 'a');
    submit(&mut state, "g");
    submit(&mut state, "p");
    submit(&mut state, "ssh");
    submit(&mut state, "h");
    press(&mut state, 'y');
    press(&mut state, 'n');
    press(&mut state, 'n');
    assert!(!state.popup_state.is_open());
    assert_eq!(state.popup_state.get_state(), PopupBuilderState::SessionGroupName);
    assert_eq!(names(&state.config), names(&sample()));
}

#[test]
fn cancel_discards_partial_state_at_every_prompt() {
    let answers: [&str; 4] = ["g", "p", "ssh", "u@h:1"];
    for stop in 0..7 {
        let mut state = ViewState::new(sample());
        press(&mut state, 'a');
        for (i, answer) in answers.iter().enumerate() {
            if i < stop {
                submit(&mut state, answer);
            }
        }
        if stop > 4 {
            press(&mut state, 'y');
        }
        if stop > 5 {
            press(&mut state, 'n');
        }
        press(&mut state, 'x');
        assert!(state.popup_state.is_open());
        assert_eq!(handle_events(&mut state, key(Key::Esc)), ShellAction::Continue);
        assert!(!state.popup_state.is_open());
        assert_eq!(state.popup_state.get_state(), PopupBuilderState::SessionGroupName);
        assert_eq!(state.popup_state.current_line(), "");
        assert_eq!(state.config.session_groups.len(), 2);
        assert_eq!(names(&state.config), names(&sample()));
    }
}

#[test]
fn build_after_cancel_starts_from_nothing() {
    let mut state = ViewState::new(Config::new());
    press(&mut state, 'a');
    submit(&mut state, "old");
    submit(&mut state, "p-old");
    submit(&mut state, "telnet");
    submit(&mut state, "h-old");
    press(&mut state, 'y');
    handle_events(&mut state, key(Key::Esc));
    press(&mut state, 'a');
    submit(&mut state, "new");
    submit(&mut state, "p-new");
    submit(&mut state, "ssh");
    submit(&mut state, "h-new");
    press(&mut state, 'y');
    press(&mut state, 'n');
    press(&mut state, 'y');
    assert_eq!(names(&state.config), vec!["new", "new/p-new"]);
}

#[test]
fn empty_submission_is_ignored() {
    let mut state = ViewState::new(Config::new());
    press(&mut state, 'a');
    enter(&mut state);
    assert_eq!(state.popup_state.get_state(), PopupBuilderState::SessionGroupName);
    submit(&mut state, "g");
    enter(&mut state);
    enter(&mut state);
    assert_eq!(state.popup_state.get_state(), PopupBuilderState::SessionName);
    assert!(state.popup_state.is_open());
}

#[test]
fn other_keys_at_a_confirmation_are_ignored() {
    let mut state = ViewState::new(Config::new());
    press(&mut state, 'a');
    submit(&mut state, "g");
    submit(&mut state, "p");
    submit(&mut state, "ssh");
    submit(&mut state, "h");
    for c in ['x', 'Y', 'N', ' '] {
        press(&mut state, c);
        assert_eq!(state.popup_state.get_state(), PopupBuilderState::SessionAddConfirm);
    }
    enter(&mut state);
    assert_eq!(state.popup_state.get_state(), PopupBuilderState::SessionAddConfirm);
    press(&mut state, 'y');
    press(&mut state, 'q');
    assert_eq!(state.popup_state.get_state(), PopupBuilderState::SessionAddMore);
    press(&mut state, 'n');
    press(&mut state, 'q');
    enter(&mut state);
    assert_eq!(state.popup_state.get_state(), PopupBuilderState::SessionGroupConfirm);
    assert!(state.popup_state.is_open());
    assert_eq!(state.config.session_groups.len(), 0);
}

#[test]
fn text_field_is_emptied_by_each_transition() {
    let mut state = ViewState::new(Config::new());
    assert_eq!(state.popup_state.current_line(), "");
    press(&mut state, 'a');
    press(&mut state, 'g');
    press(&mut state, '1');
    assert_eq!(state.popup_state.current_line(), "g1");
    assert_eq!(state.popup_state.textarea.area.lines().len(), 1);
    enter(&mut state);
    assert_eq!(state.popup_state.current_line(), "");
    assert_eq!(state.popup_state.textarea.area.lines().len(), 1);
    press(&mut state, 'q');
    assert_eq!(state.popup_state.current_line(), "q");
    handle_events(&mut state, key(Key::Backspace));
    assert_eq!(state.popup_state.current_line(), "");
}

#[test]
fn keys_go_to_the_wizard_while_it_is_shown() {
    let mut state = ViewState::new(sample());
    press(&mut state, 'j');
    assert_eq!(state.selected, Some(0));
    press(&mut state, 'a');
    for c in ['q', 'j', 'k', 'r', 'R', 'a'] {
        assert_eq!(press(&mut state, c), ShellAction::Continue);
    }
    assert_eq!(handle_events(&mut state, key(Key::Down)), ShellAction::Continue);
    assert_eq!(state.selected, Some(0));
    assert_eq!(state.popup_state.current_line(), "qjkrRa");
    assert_eq!(names(&state.config), names(&sample()));
}

#[test]
fn increment_state_walks_the_prompts() {
    let mut popup = PopupState::new();
    let group = "g".to_string();
    let name = "n".to_string();
    let protocol = "Telnet".to_string();
    let endpoint = "h:9".to_string();
    popup.increment_state(PopupStateAction::StoreStr(&group));
    assert_eq!(popup.get_state(), PopupBuilderState::SessionName);
    popup.increment_state(PopupStateAction::StoreStr(&name));
    assert_eq!(popup.get_state(), PopupBuilderState::SessionConnectionType);
    popup.increment_state(PopupStateAction::StoreStr(&protocol));
    assert_eq!(popup.get_state(), PopupBuilderState::SessionData);
    popup.increment_state(PopupStateAction::StoreStr(&endpoint));
    assert_eq!(popup.get_state(), PopupBuilderState::SessionAddConfirm);
    popup.increment_state(PopupStateAction::Store);
    assert_eq!(popup.get_state(), PopupBuilderState::SessionAddMore);
    popup.increment_state(PopupStateAction::Next);
    assert_eq!(popup.get_state(), PopupBuilderState::SessionGroupConfirm);
    assert!(popup.temp_session_group.is_none());
    popup.increment_state(PopupStateAction::Store);
    assert_eq!(popup.get_state(), PopupBuilderState::Done);
    popup.increment_state(PopupStateAction::Store);
    assert_eq!(popup.get_state(), PopupBuilderState::Done);
    let built = popup.take_group().unwrap();
    assert!(popup.take_group().is_none());
    assert_eq!(built.name, "g");
    assert_eq!(built.sessions.len(), 1);
    assert_eq!(built.sessions[0].name, "n");
    assert_eq!(built.sessions[0].data, "h:9");
    assert_eq!(built.sessions[0].connection_type, ConnectionType::Telnet);
}

#[test]
fn action_hands_out_its_line() {
    let line = "text".to_string();
    let action = PopupStateAction::StoreStr(&line);
    assert_eq!(action.get_data(), "text");
}

#[test]
fn popup_show_close_reset() {
    let mut popup = PopupState::new();
    assert!(!popup.is_open());
    popup.show();
    assert!(popup.is_open());
    popup.close();
    assert!(!popup.is_open());
    popup.show();
    let line = "g".to_string();
    popup.increment_state(PopupStateAction::StoreStr(&line));
    popup.type_key(key(Key::Char('z')));
    assert_eq!(popup.current_line(), "z");
    popup.clear_textarea();
    assert_eq!(popup.current_line(), "");
    popup.type_key(key(Key::Char('z')));
    popup.reset_state();
    assert!(!popup.is_open());
    assert_eq!(popup.get_state(), PopupBuilderState::SessionGroupName);
    assert_eq!(popup.current_line(), "");
}

#[test]
fn prompts_cover_every_state() {
    assert_eq!(
        sg_prompts(PopupBuilderState::SessionGroupName),
        (
            "Session Group Name:",
            "Enter an easy to understand name for the session group..."
        )
    );
    assert_eq!(
        sg_prompts(PopupBuilderState::SessionName),
        ("Session Name:", "Enter an easy to understand name for the session...")
    );
    assert_eq!(
        sg_prompts(PopupBuilderState::SessionConnectionType),
        ("Session Type (TELNET/SSH):", "Enter either 'telnet' or 'ssh'")
    );
    assert_eq!(
        sg_prompts(PopupBuilderState::SessionData),
        ("Connection data:", "username@ip:port")
    );
    assert_eq!(sg_prompts(PopupBuilderState::SessionAddConfirm), ("Add session? (y/n)", ""));
    assert_eq!(
        sg_prompts(PopupBuilderState::SessionAddMore),
        ("Add another session? (y/n)", "")
    );
    assert_eq!(
        sg_prompts(PopupBuilderState::SessionGroupConfirm),
        ("Add session group? (y/n)", "")
    );
    assert_eq!(sg_prompts(PopupBuilderState::Done), ("Session group has been created", ""));
    let popup = PopupState::new();
    assert_eq!(popup.get_prompt().0, "Session Group Name:");
}

#[test]
fn navigator_wraps_around() {
    let mut state = ViewState::new(sample());
    assert_eq!(count_rows(&state.config.session_groups), 5);
    assert_eq!(state.selected, None);
    state.next();
    assert_eq!(state.selected, Some(0));
    for expected in [1usize, 2, 3, 4, 0, 1] {
        state.next();
        assert_eq!(state.selected, Some(expected));
    }
    state.selected = Some(0);
    for _ in 0..5 {
        state.next();
    }
    assert_eq!(state.selected, Some(0));
    state.previous();
    assert_eq!(state.selected, Some(4));
    state.previous();
    assert_eq!(state.selected, Some(3));
}

#[test]
fn navigator_from_nothing() {
    let mut state = ViewState::new(sample());
    state.previous();
    assert_eq!(state.selected, Some(0));
    let mut state = ViewState::new(sample());
    for _ in 0..5 {
        state.next();
    }
    assert_eq!(state.selected, Some(4));
    state.next();
    assert_eq!(state.selected, Some(0));
}

#[test]
fn navigator_with_zero_groups() {
    let mut state = ViewState::new(Config::new());
    assert_eq!(count_rows(&state.config.session_groups), 0);
    state.next();
    assert_eq!(state.selected, None);
    state.previous();
    assert_eq!(state.selected, None);
    state.selected = Some(3);
    state.next();
    assert_eq!(state.selected, None);
    state.selected = Some(0);
    state.previous();
    assert_eq!(state.selected, None);
    assert_eq!(press(&mut state, 'j'), ShellAction::Continue);
    assert_eq!(press(&mut state, 'k'), ShellAction::Continue);
    assert_eq!(press(&mut state, 'r'), ShellAction::Continue);
    assert_eq!(state.selected, None);
}

#[test]
fn navigator_with_one_empty_group() {
    let mut config = Config::new();
    config.session_groups.push(SessionGroup::new("only".to_string(), Vec::new()));
    let mut state = ViewState::new(config);
    state.next();
    assert_eq!(state.selected, Some(0));
    state.next();
    assert_eq!(state.selected, Some(0));
    state.previous();
    assert_eq!(state.selected, Some(0));
}

#[test]
fn navigator_cursor_past_the_end_goes_to_the_first_row() {
    let mut state = ViewState::new(sample());
    state.selected = Some(17);
    state.next();
    assert_eq!(state.selected, Some(0));
}

#[test]
fn remove_selected_group_row() {
    let mut state = ViewState::new(sample());
    state.selected = Some(0);
    remove_selected(&mut state);
    assert_eq!(names(&state.config), vec!["b", "b/b1"]);
    assert_eq!(state.selected, Some(0));
    let mut state = ViewState::new(sample());
    state.selected = Some(3);
    remove_selected(&mut state);
    assert_eq!(names(&state.config), vec!["a", "a/a1", "a/a2"]);
}

#[test]
fn remove_selected_session_row() {
    let mut state = ViewState::new(sample());
    state.selected = Some(1);
    remove_selected(&mut state);
    assert_eq!(names(&state.config), vec!["a", "a/a2", "b", "b/b1"]);
    let mut state = ViewState::new(sample());
    state.selected = Some(2);
    remove_selected(&mut state);
    assert_eq!(names(&state.config), vec!["a", "a/a1", "b", "b/b1"]);
    let mut state = ViewState::new(sample());
    state.selected = Some(4);
    remove_selected(&mut state);
    assert_eq!(names(&state.config), vec!["a", "a/a1", "a/a2", "b"]);
}

#[test]
fn remove_selected_without_a_row() {
    let mut state = ViewState::new(sample());
    remove_selected(&mut state);
    assert_eq!(names(&state.config), names(&sample()));
    state.selected = Some(5);
    remove_selected(&mut state);
    assert_eq!(names(&state.config), names(&sample()));
    assert_eq!(state.selected, Some(5));
}

#[test]
fn find_selected_session() {
    let mut state = ViewState::new(sample());
    assert!(find_selected(&state).is_none());
    let expected = [None, Some("a1"), Some("a2"), None, Some("b1"), None, None];
    for (row, name) in expected.iter().enumerate() {
        state.selected = Some(row);
        let found = find_selected(&state);
        assert_eq!(found.map(|s| s.name), name.map(|n| n.to_string()));
    }
}

#[test]
fn connect_request_is_answered_once() {
    let mut state = ViewState::new(sample());
    state.selected = Some(4);
    assert_eq!(enter(&mut state), ShellAction::Continue);
    assert!(state.connected);
    let found = connect_selected(&mut state).unwrap();
    assert!(!state.connected);
    assert_eq!(found.name, "b1");
    assert_eq!(found.launch_args(), vec!["h", "-p", "1", "-l", "u"]);
    state.selected = Some(3);
    enter(&mut state);
    assert!(connect_selected(&mut state).is_none());
    assert!(!state.connected);
    assert_eq!(state.selected, Some(3));
}

#[test]
fn normal_mode_commands() {
    let mut state = ViewState::new(sample());
    assert_eq!(press(&mut state, 'q'), ShellAction::Quit);
    assert_eq!(handle_events(&mut state, key(Key::Esc)), ShellAction::Quit);
    assert_eq!(press(&mut state, 'R'), ShellAction::Reload);
    assert_eq!(press(&mut state, 'x'), ShellAction::Continue);
    assert_eq!(handle_events(&mut state, key(Key::Tab)), ShellAction::Continue);
    assert_eq!(state.selected, None);
    assert!(!state.connected);
    assert!(!state.popup_state.is_open());
    assert_eq!(names(&state.config), names(&sample()));
    assert_eq!(handle_events(&mut state, key(Key::Down)), ShellAction::Continue);
    assert_eq!(state.selected, Some(0));
    press(&mut state, 'j');
    assert_eq!(state.selected, Some(1));
    assert_eq!(handle_events(&mut state, key(Key::Up)), ShellAction::Continue);
    assert_eq!(state.selected, Some(0));
    press(&mut state, 'k');
    assert_eq!(state.selected, Some(4));
    press(&mut state, 'r');
    assert_eq!(names(&state.config), vec!["a", "a/a1", "a/a2", "b"]);
    assert_eq!(state.selected, Some(4));
    press(&mut state, 'j');
    assert_eq!(state.selected, Some(0));
}

#[test]
fn each_mode_has_its_handler() {
    let mut state = ViewState::new(sample());
    assert_eq!(handle_normal_mode_events(&mut state, &key(Key::Char('q'))), ShellAction::Quit);
    assert_eq!(handle_normal_mode_events(&mut state, &key(Key::Null)), ShellAction::Continue);
    assert_eq!(handle_normal_mode_events(&mut state, &key(Key::Char('a'))), ShellAction::Continue);
    assert!(state.popup_state.is_open());
    handle_edit_mode_events(&mut state, key(Key::Char('g')));
    handle_edit_mode_events(&mut state, key(Key::Enter));
    assert_eq!(state.popup_state.get_state(), PopupBuilderState::SessionName);
    handle_edit_mode_events(&mut state, key(Key::Esc));
    assert!(!state.popup_state.is_open());
}

#[test]
fn keys_are_read_without_their_modifiers() {
    assert_eq!(key_kind(&key(Key::Esc)), KeyKind::Esc);
    assert_eq!(key_kind(&key(Key::Enter)), KeyKind::Enter);
    assert_eq!(key_kind(&key(Key::Up)), KeyKind::Up);
    assert_eq!(key_kind(&key(Key::Down)), KeyKind::Down);
    assert_eq!(key_kind(&key(Key::Char('y'))), KeyKind::Char('y'));
    assert_eq!(key_kind(&key(Key::Backspace)), KeyKind::Other);
    assert_eq!(key_kind(&key(Key::F(1))), KeyKind::Other);
    let held = Input { key: Key::Char('q'), ctrl: true, alt: false, shift: true };
    assert_eq!(key_kind(&held), KeyKind::Char('q'));
    let mut state = ViewState::new(sample());
    assert_eq!(handle_events(&mut state, held), ShellAction::Quit);
}

#[test]
fn remove_group_by_name_trims_the_name() {
    let mut ui = UI { path: "sessions.json".to_string(), config: sample() };
    ui.config.session_groups.push(SessionGroup::new("a".to_string(), Vec::new()));
    ui.remove_session_group_by_name("  a \n");
    assert_eq!(names(&ui.config), vec!["b", "b/b1"]);
    assert_eq!(ui.path, "sessions.json");
    ui.remove_session_group_by_name("missing");
    assert_eq!(names(&ui.config), vec!["b", "b/b1"]);
}

#[test]
fn remove_groups_named_takes_the_name_as_it_is() {
    let mut groups = sample().session_groups;
    remove_groups_named(&mut groups, " a");
    assert_eq!(groups.len(), 2);
    remove_groups_named(&mut groups, "b");
    assert_eq!(groups.len(), 1);
    assert_eq!(groups[0].name, "a");
    assert_eq!(groups[0].sessions.len(), 2);
}

#[test]
fn sessions_are_numbered_in_document_order() {
    let mut ui = UI { path: String::new(), config: sample() };
    ui.config.session_groups.insert(1, SessionGroup::new("none".to_string(), Vec::new()));
    let all: Vec<String> = ui.sessions().iter().map(|s| s.name.clone()).collect();
    assert_eq!(all, vec!["a1", "a2", "b1"]);
    assert_eq!(ui.session_by_index(0).unwrap().name, "a1");
    assert_eq!(ui.session_by_index(2).unwrap().name, "b1");
    assert!(ui.session_by_index(3).is_none());
}

#[test]
fn new_document_is_empty() {
    let config = Config::new();
    assert_eq!(config.version, "0.1.0");
    assert_eq!(config.session_groups.len(), 0);
    let mut old = sample();
    old.version = "0.0.1".to_string();
    let stamped = old.stamped();
    assert_eq!(stamped.version, "0.1.0");
    assert_eq!(names(&stamped), names(&sample()));
    let copy = old.clone();
    assert_eq!(copy.version, "0.0.1");
    assert_eq!(names(&copy), names(&sample()));
}

#[test]
fn state_is_ready_through_a_build() {
    let mut state = ViewState::new(sample());
    assert!(state.is_ready());
    assert!(state.popup_state.is_well_formed());
    assert_eq!(checked_count_rows(&state.config.session_groups), Some(5));
    assert_eq!(checked_count_rows(&Vec::new()), Some(0));
    press(&mut state, 'a');
    for answer in ["g", "p", "ssh", "h"] {
        submit(&mut state, answer);
        assert!(state.is_ready());
    }
    for c in ['n', 'y'] {
        press(&mut state, c);
        assert!(state.is_ready());
    }
    assert_eq!(state.popup_state.get_state(), PopupBuilderState::SessionName);
}

#[test]
fn menu_answers() {
    assert!(is_yes("y"));
    assert!(is_yes(" Y\n"));
    assert!(!is_yes("yes"));
    assert!(!is_yes("n"));
    assert!(!is_yes(""));
    assert!(is_no("n\n"));
    assert!(is_no("\tN "));
    assert!(!is_no("no"));
    assert!(!is_no("y"));
    assert!(is_yes_trimmed("Y"));
    assert!(!is_yes_trimmed(" y"));
    assert!(is_no_trimmed("n"));
    assert!(!is_no_trimmed("n "));
}

#[test]
fn reload_replaces_the_document_only() {
    let mut state = ViewState::new(sample());
    state.selected = Some(4);
    press(&mut state, 'r');
    assert_eq!(names(&state.config), vec!["a", "a/a1", "a/a2", "b"]);
    assert_eq!(press(&mut state, 'R'), ShellAction::Reload);
    assert_eq!(names(&state.config), vec!["a", "a/a1", "a/a2", "b"]);
    state.reload(sample());
    assert_eq!(names(&state.config), names(&sample()));
    assert_eq!(state.selected, Some(4));
    assert!(!state.popup_state.is_open());
    state.reload(Config::new());
    assert_eq!(state.config.session_groups.len(), 0);
    assert_eq!(state.selected, Some(4));
    press(&mut state, 'j');
    assert_eq!(state.selected, None);
}

#[test]
fn typed_characters_are_appended() {
    let mut state = ViewState::new(Config::new());
    press(&mut state, 'a');
    let shifted = Input { key: Key::Char('G'), ctrl: false, alt: false, shift: true };
    handle_events(&mut state, shifted);
    for c in "roup \u{e9}t\u{e9}".chars() {
        press(&mut state, c);
    }
    assert_eq!(state.popup_state.current_line(), "Group \u{e9}t\u{e9}");
    enter(&mut state);
    assert_eq!(state.popup_state.get_state(), PopupBuilderState::SessionName);
    submit(&mut state, "p");
    submit(&mut state, "ssh");
    submit(&mut state, "h");
    press(&mut state, 'y');
    press(&mut state, 'n');
    press(&mut state, 'y');
    assert_eq!(names(&state.config), vec!["Group \u{e9}t\u{e9}", "Group \u{e9}t\u{e9}/p"]);
}
