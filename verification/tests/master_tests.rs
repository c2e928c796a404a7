use cowfarg::input::{KeyCode, Mods, MouseButton};
use cowfarg::master::Master;
use cowfarg::screen::Screen;
use cowfarg::state::StateSwitch;
use cowfarg::status::{CursorIcon, PlatformCursor};

const RETURN: char = '\r';

fn plain() -> PlatformCursor {
    PlatformCursor { icon: CursorIcon::Default, hidden: false }
}

fn shift() -> Mods {
    Mods { shift: true, ctrl: false, alt: false }
}

#[test]
fn new_master_starts_on_the_menu_with_the_console_closed() {
    let master = Master::new(1152, 648);
    assert!(matches!(master.gs, Screen::Menu(_)));
    assert!(!master.console_status.is_open());
    assert_eq!(master.state.width, 1152);
    assert_eq!(master.state.height, 648);
    assert_eq!(master.state.switch_state, None);
    assert!(master.state.continuing);
}

#[test]
fn tab_release_opens_the_console_only_while_closed() {
    let mut master = Master::new(1152, 648);
    let platform = PlatformCursor { icon: CursorIcon::Hand, hidden: true };
    master.key_up_event(&platform, KeyCode::Tab);
    assert!(master.console_status.is_open());
    // a second tab while open neither toggles nor recaptures
    let other = PlatformCursor { icon: CursorIcon::Text, hidden: false };
    master.key_up_event(&other, KeyCode::Tab);
    assert!(master.console_status.is_open());
    let mut restore = plain();
    master.text_input_event(&mut restore, '\u{1b}', None);
    assert_eq!(restore.icon, CursorIcon::Hand);
    assert!(restore.hidden);
}

#[test]
fn quit_combination_works_whether_the_console_is_open_or_not() {
    let mut master = Master::new(1152, 648);
    master.key_down_event(KeyCode::Escape, shift(), false);
    assert!(!master.state.continuing);

    let mut master = Master::new(1152, 648);
    let platform = plain();
    master.key_up_event(&platform, KeyCode::Tab);
    assert!(master.console_status.is_open());
    master.key_down_event(KeyCode::Escape, shift(), false);
    assert!(!master.state.continuing);
}

#[test]
fn repeated_key_down_events_are_discarded() {
    let mut master = Master::new(1152, 648);
    master.key_down_event(KeyCode::Escape, shift(), true);
    assert!(master.state.continuing);
    master.key_down_event(KeyCode::W, Mods::default(), false);
    master.key_down_event(KeyCode::W, Mods::default(), true);
    assert_eq!(master.input.ver(), -1);
}

#[test]
fn movement_keys_reach_the_aggregator_even_while_the_console_is_open() {
    let mut master = Master::new(1152, 648);
    let platform = plain();
    master.key_up_event(&platform, KeyCode::Tab);
    assert!(master.console_status.is_open());
    master.key_down_event(KeyCode::S, Mods::default(), false);
    assert_eq!(master.input.ver(), 1);
    master.key_up_event(&platform, KeyCode::S);
    assert_eq!(master.input.ver(), 0);
    master.mouse_button_down_event(MouseButton::Left);
    assert!(master.input.mouse_left);
    master.mouse_button_up_event(MouseButton::Left);
    assert!(!master.input.mouse_left);
}

#[test]
fn clicking_the_menu_play_button_requests_the_play_transition() {
    let mut master = Master::new(1152, 648);
    let mut platform = plain();
    // the play button spans x in [493, 657) and y in [64, 128)
    master.mouse_motion_event(&mut platform, 500, 100);
    master.mouse_button_up_event(MouseButton::Left);
    assert_eq!(master.state.switch_state, Some(StateSwitch::Play));
}

#[test]
fn clicking_beside_the_menu_button_does_nothing() {
    let mut master = Master::new(1152, 648);
    let mut platform = plain();
    master.mouse_motion_event(&mut platform, 10, 10);
    master.mouse_button_up_event(MouseButton::Left);
    assert_eq!(master.state.switch_state, None);
}

#[test]
fn an_open_console_swallows_the_screens_mouse_events() {
    let mut master = Master::new(1152, 648);
    let mut platform = plain();
    master.key_up_event(&platform, KeyCode::Tab);
    master.mouse_motion_event(&mut platform, 500, 100);
    master.mouse_button_up_event(MouseButton::Left);
    assert_eq!(master.state.switch_state, None);
}

#[test]
fn update_consumes_the_transition_and_swaps_the_screen() {
    let mut master = Master::new(1152, 648);
    let mut platform = plain();
    master.mouse_motion_event(&mut platform, 500, 100);
    master.mouse_button_up_event(MouseButton::Left);
    assert_eq!(master.state.switch_state, Some(StateSwitch::Play));
    master.update(&mut platform, 3);
    assert!(matches!(master.gs, Screen::Play(_)));
    assert_eq!(master.state.switch_state, None);
    // entering play resets the cursor to a default arrow, then hides it
    assert_eq!(platform.icon, CursorIcon::Default);
    assert!(platform.hidden);
    if let Screen::Play(p) = &master.gs {
        assert_eq!(p.world.grid.width(), 16);
        assert_eq!(p.world.grid.height(), 16);
    }
}

#[test]
fn reload_brings_the_menu_back_with_a_visible_cursor() {
    let mut master = Master::new(1152, 648);
    let mut platform = plain();
    master.mouse_motion_event(&mut platform, 500, 100);
    master.mouse_button_up_event(MouseButton::Left);
    master.update(&mut platform, 1);
    assert!(matches!(master.gs, Screen::Play(_)));
    master.key_up_event(&platform, KeyCode::Tab);
    for c in "reload".chars() {
        master.text_input_event(&mut platform, c, None);
    }
    master.text_input_event(&mut platform, RETURN, None);
    master.update(&mut platform, 1);
    assert!(matches!(master.gs, Screen::Menu(_)));
    assert_eq!(platform.icon, CursorIcon::Default);
    assert!(!platform.hidden);
}

#[test]
fn update_with_no_transition_keeps_the_screen() {
    let mut master = Master::new(1152, 648);
    let mut platform = plain();
    master.update(&mut platform, 5);
    assert!(matches!(master.gs, Screen::Menu(_)));
    assert_eq!(platform.icon, CursorIcon::Default);
    assert!(!platform.hidden);
}

#[test]
fn mouse_motion_tracks_the_latest_position() {
    let mut master = Master::new(1152, 648);
    let mut platform = plain();
    master.mouse_motion_event(&mut platform, 42, 73);
    assert_eq!(master.state.mouse.x, 42);
    assert_eq!(master.state.mouse.y, 73);
}

#[test]
fn quit_event_never_cancels_quitting() {
    let mut master = Master::new(1152, 648);
    assert!(!master.quit_event());
}
