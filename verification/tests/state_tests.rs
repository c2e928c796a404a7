use cowfarg::screen::{Button, Callback, Event, Menu, Play, Screen};
use cowfarg::input::MouseButton;
use cowfarg::state::{Pt, State, StateSwitch};
use cowfarg::status::{CursorIcon, PlatformCursor};

#[test]
fn focus_on_centers_the_point() {
    let mut s = State::new(1152, 648);
    s.focus_on(Pt { x: 100, y: -50 });
    assert_eq!(s.offset.x, 1152 / 2 - 100);
    assert_eq!(s.offset.y, 648 / 2 + 50);
}

#[test]
fn switch_overwrites_the_pending_transition() {
    let mut s = State::new(800, 600);
    assert_eq!(s.switch_state, None);
    s.switch(StateSwitch::Play);
    assert_eq!(s.switch_state, Some(StateSwitch::Play));
    s.switch(StateSwitch::Menu);
    assert_eq!(s.switch_state, Some(StateSwitch::Menu));
}

#[test]
fn menu_lays_out_one_play_button_from_the_viewport_width() {
    let s = State::new(1152, 648);
    let m = Menu::new(&s);
    assert_eq!(m.buttons.len(), 1);
    let b: &Button = &m.buttons[0];
    assert!(matches!(b.callback, Callback::SwitchPlay));
    assert_eq!(b.rect.x, 493);
    assert_eq!(b.rect.y, 64);
    assert_eq!(b.rect.w, 164);
    assert_eq!(b.rect.h, 64);
    assert!(b.in_bounds(Pt { x: 493, y: 64 }));
    assert!(b.in_bounds(Pt { x: 656, y: 127 }));
    assert!(!b.in_bounds(Pt { x: 657, y: 100 }));
    assert!(!b.in_bounds(Pt { x: 500, y: 128 }));
}

#[test]
fn menu_release_off_the_button_changes_nothing() {
    let s0 = State::new(1152, 648);
    let mut m = Menu::new(&s0);
    let mut s = State::new(1152, 648);
    s.mouse = Pt { x: 0, y: 0 };
    m.event_up(&mut s, Event::Mouse(MouseButton::Left));
    assert_eq!(s.switch_state, None);
    s.mouse = Pt { x: 500, y: 100 };
    m.event_up(&mut s, Event::Mouse(MouseButton::Right));
    assert_eq!(s.switch_state, None);
    m.event_up(&mut s, Event::Mouse(MouseButton::Left));
    assert_eq!(s.switch_state, Some(StateSwitch::Play));
}

#[test]
fn only_the_play_screen_owns_a_world() {
    let s = State::new(1152, 648);
    let menu = Screen::Menu(Menu::new(&s));
    assert!(menu.get_world().is_none());
    let mut platform = PlatformCursor { icon: CursorIcon::Default, hidden: false };
    let play = Screen::Play(Play::new(&mut platform));
    assert!(platform.hidden);
    let w = play.get_world().expect("play owns a world");
    assert_eq!(w.grid.width(), 16);
}
