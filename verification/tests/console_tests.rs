use cowfarg::console::CommandError;
use cowfarg::input::KeyCode;
use cowfarg::logcap::Colour;
use cowfarg::master::Master;
use cowfarg::state::StateSwitch;
use cowfarg::status::{CursorIcon, PlatformCursor};

const BACKSPACE: char = '\u{8}';
const ESCAPE: char = '\u{1b}';
const PASTE: char = '\u{16}';
const RETURN: char = '\r';

fn chars(s: &str) -> Vec<char> {
    s.chars().collect()
}

fn open_console() -> (Master, PlatformCursor) {
    let mut master = Master::new(1152, 648);
    let mut platform = PlatformCursor { icon: CursorIcon::Default, hidden: false };
    master.key_up_event(&platform, KeyCode::Tab);
    assert!(master.console_status.is_open());
    (master, platform)
}

fn type_line(master: &mut Master, platform: &mut PlatformCursor, text: &str) {
    for c in text.chars() {
        master.text_input_event(platform, c, None);
    }
}

#[test]
fn console_starts_with_the_greeting_line() {
    let master = Master::new(1152, 648);
    let lines = master.console.history_lines();
    assert_eq!(lines.len(), 1);
    assert_eq!(lines[0].text, chars("Acheivements disabled.\n"));
    assert_eq!(lines[0].colour, None);
    assert!(master.console.prompt_chars().is_empty());
}

#[test]
fn typed_characters_land_in_the_prompt() {
    let (mut master, mut platform) = open_console();
    type_line(&mut master, &mut platform, "abc");
    assert_eq!(master.console.prompt_chars().clone(), chars("abc"));
}

#[test]
fn closed_console_ignores_text_input() {
    let mut master = Master::new(1152, 648);
    let mut platform = PlatformCursor { icon: CursorIcon::Default, hidden: false };
    master.text_input_event(&mut platform, 'x', None);
    assert!(master.console.prompt_chars().is_empty());
}

#[test]
fn reload_typed_with_a_backspace_requests_the_menu_transition() {
    let (mut master, mut platform) = open_console();
    type_line(&mut master, &mut platform, "reloa");
    master.text_input_event(&mut platform, BACKSPACE, None);
    type_line(&mut master, &mut platform, "ad");
    master.text_input_event(&mut platform, RETURN, None);
    assert_eq!(master.state.switch_state, Some(StateSwitch::Menu));
    assert!(master.console.prompt_chars().is_empty());
    let lines = master.console.history_lines();
    assert_eq!(lines.len(), 2);
    assert_eq!(lines[1].text, chars("> reload\n"));
    assert_eq!(lines[1].colour, None);
}

#[test]
fn reload_overwrites_a_prior_pending_transition() {
    let (mut master, mut platform) = open_console();
    master.state.switch(StateSwitch::Play);
    type_line(&mut master, &mut platform, "reload");
    master.text_input_event(&mut platform, RETURN, None);
    assert_eq!(master.state.switch_state, Some(StateSwitch::Menu));
}

#[test]
fn unknown_verb_warns_once_and_changes_no_state() {
    let (mut master, mut platform) = open_console();
    type_line(&mut master, &mut platform, "foo");
    master.text_input_event(&mut platform, RETURN, None);
    assert_eq!(master.state.switch_state, None);
    assert!(master.state.continuing);
    assert_eq!(master.capture.len(), 1);
    // the warning surfaces in history on the next frame's drain
    master.update(&mut platform, 0);
    assert_eq!(master.capture.len(), 0);
    let lines = master.console.history_lines();
    assert_eq!(lines.len(), 3);
    assert_eq!(lines[2].text, chars("  Unknown command `foo'!\n"));
    assert_eq!(lines[2].colour, Some(Colour::Yellow));
    assert_eq!(master.state.switch_state, None);
    assert!(master.state.continuing);
}

#[test]
fn clear_empties_the_history() {
    let (mut master, mut platform) = open_console();
    type_line(&mut master, &mut platform, "clear");
    master.text_input_event(&mut platform, RETURN, None);
    assert_eq!(master.console.history_lines().len(), 0);
    assert!(master.console.prompt_chars().is_empty());
}

#[test]
fn quit_asks_the_process_to_terminate() {
    let (mut master, mut platform) = open_console();
    assert!(master.state.continuing);
    type_line(&mut master, &mut platform, "quit");
    master.text_input_event(&mut platform, RETURN, None);
    assert!(!master.state.continuing);
}

#[test]
fn hello_greets_through_the_log_path() {
    let (mut master, mut platform) = open_console();
    type_line(&mut master, &mut platform, "hello");
    master.text_input_event(&mut platform, RETURN, None);
    master.update(&mut platform, 0);
    let lines = master.console.history_lines();
    assert_eq!(lines[lines.len() - 1].text, chars("Hello!\n"));
    assert_eq!(lines[lines.len() - 1].colour, None);
}

#[test]
fn empty_command_only_echoes() {
    let (mut master, mut platform) = open_console();
    master.text_input_event(&mut platform, RETURN, None);
    let lines = master.console.history_lines();
    assert_eq!(lines.len(), 2);
    assert_eq!(lines[1].text, chars("> \n"));
    assert_eq!(master.state.switch_state, None);
    assert_eq!(master.capture.len(), 0);
}

#[test]
fn backspace_on_an_empty_prompt_is_harmless() {
    let (mut master, mut platform) = open_console();
    master.text_input_event(&mut platform, BACKSPACE, None);
    assert!(master.console.prompt_chars().is_empty());
}

#[test]
fn paste_appends_the_clipboard_text() {
    let (mut master, mut platform) = open_console();
    type_line(&mut master, &mut platform, "re");
    let pasted = chars("load");
    master.text_input_event(&mut platform, PASTE, Some(&pasted));
    assert_eq!(master.console.prompt_chars().clone(), chars("reload"));
    master.text_input_event(&mut platform, RETURN, None);
    assert_eq!(master.state.switch_state, Some(StateSwitch::Menu));
}

#[test]
fn failed_paste_is_reported_through_the_log_path() {
    let (mut master, mut platform) = open_console();
    master.text_input_event(&mut platform, PASTE, None);
    assert!(master.console.prompt_chars().is_empty());
    master.update(&mut platform, 0);
    let lines = master.console.history_lines();
    assert_eq!(lines[lines.len() - 1].text, chars("Failed to read clipboard\n"));
    assert_eq!(lines[lines.len() - 1].colour, Some(Colour::Red));
}

#[test]
fn unknown_control_character_leaves_a_notice() {
    let (mut master, mut platform) = open_console();
    master.text_input_event(&mut platform, '\u{2}', None);
    let lines = master.console.history_lines();
    assert_eq!(lines.len(), 2);
    assert_eq!(lines[1].text, chars("Unknown control character \u{2}\n"));
}

#[test]
fn escape_closes_the_console_and_restores_the_cursor() {
    let mut master = Master::new(1152, 648);
    let mut platform = PlatformCursor { icon: CursorIcon::Crosshair, hidden: true };
    master.key_up_event(&platform, KeyCode::Tab);
    assert!(master.console_status.is_open());
    platform.icon = CursorIcon::Default;
    platform.hidden = false;
    master.text_input_event(&mut platform, ESCAPE, None);
    assert!(!master.console_status.is_open());
    assert_eq!(platform.icon, CursorIcon::Crosshair);
    assert!(platform.hidden);
}

#[test]
fn history_height_stays_within_budget_dropping_oldest_first() {
    let (mut master, mut platform) = open_console();
    for _ in 0..12 {
        master.text_input_event(&mut platform, RETURN, None);
    }
    let lines = master.console.history_lines();
    // 196 / 18 = ten whole lines fit above the prompt
    assert_eq!(lines.len(), 10);
    // the greeting was the oldest line and is gone; only echoes remain
    for line in lines.iter() {
        assert_eq!(line.text, chars("> \n"));
    }
}

#[test]
fn command_errors_carry_their_messages() {
    assert_eq!(CommandError::NoWorld.message(), "No world");
    assert_eq!(CommandError::NoCampaign.message(), "No campaign loaded");
    assert_eq!(CommandError::InvalidArg.message(), "Invalid argument");
    assert_eq!(CommandError::NoSuchLevel.message(), "No such level");
    assert_eq!(CommandError::NoSuchWeapon.message(), "No such weapon");
}
