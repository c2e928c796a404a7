use cowfarg::logcap::{Colour, Level, LogCapture};

fn chars(s: &str) -> Vec<char> {
    s.chars().collect()
}

#[test]
fn colour_table_is_fixed_by_severity() {
    assert_eq!(LogCapture::get_colour(Level::Trace), Some(Colour::Blue));
    assert_eq!(LogCapture::get_colour(Level::Debug), Some(Colour::Green));
    assert_eq!(LogCapture::get_colour(Level::Info), None);
    assert_eq!(LogCapture::get_colour(Level::Warn), Some(Colour::Yellow));
    assert_eq!(LogCapture::get_colour(Level::Error), Some(Colour::Red));
}

#[test]
fn only_own_module_records_are_captured() {
    let cap = LogCapture::new();
    assert!(cap.enabled("cowfarg"));
    assert!(cap.enabled("cowfarg::game::world"));
    assert!(!cap.enabled("cowfar"));
    assert!(!cap.enabled("ggez::graphics"));
    assert!(!cap.enabled(""));
}

#[test]
fn foreign_records_are_ignored() {
    let mut cap = LogCapture::new();
    cap.log("ggez::graphics", Level::Warn, "vsync glitch");
    assert_eq!(cap.len(), 0);
    cap.log("cowfarg::game", Level::Warn, "kept");
    assert_eq!(cap.len(), 1);
}

#[test]
fn captured_record_carries_text_newline_and_colour() {
    let mut cap = LogCapture::new();
    cap.log("cowfarg::game", Level::Info, "ready");
    cap.log("cowfarg::game", Level::Error, "boom");
    let out = cap.empty();
    assert_eq!(out.len(), 2);
    assert_eq!(out[0].text, chars("ready\n"));
    assert_eq!(out[0].colour, None);
    assert_eq!(out[1].text, chars("boom\n"));
    assert_eq!(out[1].colour, Some(Colour::Red));
}

#[test]
fn draining_twice_yields_nothing_the_second_time() {
    let mut cap = LogCapture::new();
    cap.log("cowfarg", Level::Debug, "one");
    cap.log("cowfarg", Level::Trace, "two");
    let first = cap.empty();
    assert_eq!(first.len(), 2);
    let second = cap.empty();
    assert_eq!(second.len(), 0);
    assert_eq!(cap.len(), 0);
}
