use nav_router::command::{Command, Direction};
use nav_router::keys::Mod;
use nav_router::router::{Action, ConfigError, State};

fn probe(command: &str) -> Vec<u8> {
    format!("CLIENT_ID ZELLIJ_PANE_ID RUNNING_COMMAND\n1 terminal_1 {}\n", command).into_bytes()
}

fn with_occupant(command: &str) -> State {
    let mut state = State::default();
    assert_eq!(state.update(probe(command)), None);
    state
}

#[test]
fn defaults() {
    let state = State::default();
    assert_eq!(state.move_mod(), Mod::Ctrl);
    assert_eq!(state.resize_mod(), Mod::Alt);
    assert_eq!(state.pending_len(), 0);
    assert_eq!(state.current_term_command(), None);
}

#[test]
fn scenario_native_move_focus() {
    let mut state = with_occupant("/bin/bash");
    assert_eq!(state.current_term_command(), Some("bash"));
    assert!(state.pipe("move_focus", Some("left")));
    assert_eq!(state.pending_len(), 1);
    assert_eq!(state.update(probe("/bin/bash")), Some(Action::MoveFocus(Direction::Left)));
    assert_eq!(state.pending_len(), 0);
}

#[test]
fn scenario_nvim_alt_move() {
    let mut state = with_occupant("/usr/bin/nvim");
    assert_eq!(state.parse_configuration(Some("alt"), None), Ok(()));
    assert!(state.pipe("move_focus", Some("up")));
    assert_eq!(
        state.update(probe("/usr/bin/nvim")),
        Some(Action::WriteChars("\u{1b}@".to_string()))
    );
}

#[test]
fn scenario_vim_ctrl_resize() {
    let mut state = with_occupant("/usr/bin/vim");
    assert_eq!(state.parse_configuration(None, Some("ctrl")), Ok(()));
    assert!(state.pipe("resize", Some("down")));
    assert_eq!(state.update(probe("/usr/bin/vim")), Some(Action::WriteChars("\n".to_string())));
}

#[test]
fn scenario_unknown_name_ignored() {
    let mut state = State::default();
    assert!(!state.pipe("jump", Some("left")));
    assert_eq!(state.pending_len(), 0);
}

#[test]
fn native_resize_and_tab_move() {
    let mut state = with_occupant("/bin/zsh");
    assert!(state.pipe("resize", Some("right")));
    assert!(state.pipe("move_focus_or_tab", Some("down")));
    assert_eq!(state.update(probe("/bin/zsh")), Some(Action::ResizeIncrease(Direction::Right)));
    assert_eq!(state.update(probe("/bin/zsh")), Some(Action::MoveFocusOrTab(Direction::Down)));
}

#[test]
fn fifo_one_per_completion() {
    let mut state = State::default();
    let cmds = [
        Command::MoveFocus(Direction::Left),
        Command::Resize(Direction::Up),
        Command::MoveFocusOrTab(Direction::Right),
    ];
    for c in cmds.iter() {
        state.handle_command(*c);
    }
    assert_eq!(state.pending_len(), 3);
    assert_eq!(state.update(probe("N/A")), Some(Action::MoveFocus(Direction::Left)));
    assert_eq!(state.pending_len(), 2);
    assert_eq!(state.update(probe("N/A")), Some(Action::ResizeIncrease(Direction::Up)));
    assert_eq!(state.update(probe("N/A")), Some(Action::MoveFocusOrTab(Direction::Right)));
    assert_eq!(state.pending_len(), 0);
}

#[test]
fn idle_completion_updates_occupant_only() {
    let mut state = with_occupant("/bin/bash");
    assert_eq!(state.update(probe("/usr/bin/nvim")), None);
    assert_eq!(state.current_term_command(), Some("nvim"));
    assert_eq!(state.pending_len(), 0);
    assert_eq!(state.move_mod(), Mod::Ctrl);
}

#[test]
fn latest_occupant_decides() {
    let mut state = with_occupant("/usr/bin/nvim");
    assert!(state.pipe("move_focus", Some("right")));
    assert_eq!(state.update(probe("/bin/bash")), Some(Action::MoveFocus(Direction::Right)));
}

#[test]
fn invalid_utf8_means_no_occupant() {
    let mut state = with_occupant("/usr/bin/nvim");
    assert!(state.pipe("move_focus", Some("left")));
    assert_eq!(state.update(vec![0xff, 0xfe, b'\n']), Some(Action::MoveFocus(Direction::Left)));
    assert_eq!(state.current_term_command(), None);
}

#[test]
fn configuration_errors() {
    let mut state = State::default();
    assert_eq!(state.parse_configuration(Some("shift"), None), Err(ConfigError::IllegalMoveMod));
    assert_eq!(state.parse_configuration(None, Some("meta")), Err(ConfigError::IllegalResizeMod));
    assert_eq!(state.move_mod(), Mod::Ctrl);
    assert_eq!(state.parse_configuration(Some("ALT"), Some("Ctrl")), Ok(()));
    assert_eq!(state.move_mod(), Mod::Alt);
    assert_eq!(state.resize_mod(), Mod::Ctrl);
}

#[test]
fn non_editor_named_like_editor_prefix() {
    let mut state = with_occupant("/usr/bin/nvim-qt");
    assert!(state.pipe("move_focus", Some("up")));
    assert_eq!(state.update(probe("/usr/bin/nvim-qt")), Some(Action::MoveFocus(Direction::Up)));
}
