use cowfarg::status::{ConsoleStatus, CursorIcon, PlatformCursor};

#[test]
fn open_captures_the_current_cursor() {
    let platform = PlatformCursor { icon: CursorIcon::Crosshair, hidden: true };
    let mut st = ConsoleStatus::Closed;
    assert!(!st.is_open());
    st.open(&platform);
    assert!(st.is_open());
    match st {
        ConsoleStatus::Open { cursor, cursor_hidden } => {
            assert_eq!(cursor, CursorIcon::Crosshair);
            assert!(cursor_hidden);
        }
        ConsoleStatus::Closed => panic!("console should be open"),
    }
}

#[test]
fn opening_when_already_open_is_a_no_op() {
    let first = PlatformCursor { icon: CursorIcon::Hand, hidden: false };
    let mut st = ConsoleStatus::Closed;
    st.open(&first);
    let second = PlatformCursor { icon: CursorIcon::Text, hidden: true };
    st.open(&second);
    match st {
        ConsoleStatus::Open { cursor, cursor_hidden } => {
            assert_eq!(cursor, CursorIcon::Hand);
            assert!(!cursor_hidden);
        }
        ConsoleStatus::Closed => panic!("console should be open"),
    }
}

#[test]
fn closing_when_already_closed_is_a_no_op() {
    let mut platform = PlatformCursor { icon: CursorIcon::Grab, hidden: true };
    let mut st = ConsoleStatus::Closed;
    st.close(&mut platform);
    assert!(!st.is_open());
    assert_eq!(platform.icon, CursorIcon::Grab);
    assert!(platform.hidden);
}

#[test]
fn open_then_close_restores_the_cursor_exactly() {
    let mut platform = PlatformCursor { icon: CursorIcon::Hand, hidden: true };
    let mut st = ConsoleStatus::Closed;
    st.open(&platform);
    // the active screen meddles with the cursor while the console is open
    platform.icon = CursorIcon::Text;
    platform.hidden = false;
    st.close(&mut platform);
    assert!(!st.is_open());
    assert_eq!(platform.icon, CursorIcon::Hand);
    assert!(platform.hidden);
}

#[test]
fn cursor_adjusts_with_mouse_height_while_open() {
    let mut platform = PlatformCursor { icon: CursorIcon::Crosshair, hidden: true };
    let mut st = ConsoleStatus::Closed;
    st.open(&platform);
    // over the game world, below the prompt line: the capture shows through
    platform.icon = CursorIcon::Default;
    platform.hidden = false;
    st.adjust_cursor(&mut platform, 400);
    assert_eq!(platform.icon, CursorIcon::Crosshair);
    assert!(platform.hidden);
    // over the console panel: a default visible arrow
    st.adjust_cursor(&mut platform, 100);
    assert_eq!(platform.icon, CursorIcon::Default);
    assert!(!platform.hidden);
    // the stored capture is untouched by adjustment
    st.close(&mut platform);
    assert_eq!(platform.icon, CursorIcon::Crosshair);
    assert!(platform.hidden);
}

#[test]
fn closed_console_never_adjusts_the_cursor() {
    let mut platform = PlatformCursor { icon: CursorIcon::Text, hidden: false };
    let st = ConsoleStatus::Closed;
    st.adjust_cursor(&mut platform, 400);
    assert_eq!(platform.icon, CursorIcon::Text);
    assert!(!platform.hidden);
}
