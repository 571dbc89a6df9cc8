use vr_media_overlay::input::{
    decode_commit, find_nul, map_button, translate, translate_text, Key, PointerButton, RawEvent,
    UiEvent,
};

type Ev = UiEvent<(f32, f32)>;

fn run(e: RawEvent<(f32, f32)>) -> Vec<Ev> {
    let mut out = Vec::new();
    translate(e, &mut out);
    out
}

fn commit(bytes: &[u8]) -> RawEvent<(f32, f32)> {
    let mut buf = [0u8; 12];
    buf[..bytes.len()].copy_from_slice(bytes);
    RawEvent::CharInput(buf)
}

fn key(key: Key, pressed: bool) -> Ev {
    UiEvent::Key { key, pressed }
}

#[test]
fn mouse_move_keeps_position() {
    assert_eq!(run(RawEvent::MouseMove((3.0, 4.5))), vec![UiEvent::PointerMoved((3.0, 4.5))]);
}

#[test]
fn button_codes_map_to_buttons() {
    assert_eq!(map_button(1), PointerButton::Primary);
    assert_eq!(map_button(2), PointerButton::Secondary);
    assert_eq!(map_button(3), PointerButton::Middle);
    assert_eq!(map_button(0), PointerButton::Extra1);
    assert_eq!(map_button(4), PointerButton::Extra1);
    assert_eq!(map_button(u32::MAX), PointerButton::Extra1);
}

#[test]
fn mouse_button_event_is_translated() {
    let out = run(RawEvent::MouseButton { pos: (1.0, 2.0), button: 2, pressed: false });
    assert_eq!(
        out,
        vec![UiEvent::PointerButton { pos: (1.0, 2.0), button: PointerButton::Secondary, pressed: false }]
    );
    let out = run(RawEvent::MouseButton { pos: (0.0, 0.0), button: 9, pressed: true });
    assert_eq!(
        out,
        vec![UiEvent::PointerButton { pos: (0.0, 0.0), button: PointerButton::Extra1, pressed: true }]
    );
}

#[test]
fn scroll_keeps_delta() {
    assert_eq!(run(RawEvent::Scroll((0.0, -1.0))), vec![UiEvent::Scroll((0.0, -1.0))]);
}

#[test]
fn newline_commit_is_enter_press_then_release() {
    assert_eq!(run(commit(b"\n")), vec![key(Key::Enter, true), key(Key::Enter, false)]);
}

#[test]
fn backspace_commit_is_backspace_press_then_release() {
    assert_eq!(run(commit(&[8])), vec![key(Key::Backspace, true), key(Key::Backspace, false)]);
}

#[test]
fn other_commit_is_text() {
    assert_eq!(run(commit(b"ab")), vec![UiEvent::Text("ab".to_string())]);
    assert_eq!(run(commit("é".as_bytes())), vec![UiEvent::Text("é".to_string())]);
    assert_eq!(run(commit(b"\n\n")), vec![UiEvent::Text("\n\n".to_string())]);
}

#[test]
fn bytes_after_nul_are_ignored() {
    let mut buf = [0u8; 12];
    buf[0] = b'x';
    buf[2] = b'y';
    assert_eq!(run(RawEvent::CharInput(buf)), vec![UiEvent::Text("x".to_string())]);
}

#[test]
fn empty_commit_is_empty_text() {
    assert_eq!(run(commit(b"")), vec![UiEvent::Text(String::new())]);
}

#[test]
fn unterminated_commit_is_dropped() {
    assert_eq!(find_nul(&[b'a'; 12]), 12);
    assert_eq!(decode_commit(&[b'a'; 12]), None);
    assert!(run(RawEvent::CharInput([b'a'; 12])).is_empty());
}

#[test]
fn invalid_utf8_commit_is_dropped() {
    assert_eq!(decode_commit(&{
        let mut b = [0u8; 12];
        b[0] = 0xff;
        b
    }), None);
    assert!(run(commit(&[0xc3])).is_empty());
}

#[test]
fn find_nul_gives_first_nul() {
    let mut buf = [1u8; 12];
    buf[5] = 0;
    buf[7] = 0;
    assert_eq!(find_nul(&buf), 5);
}

#[test]
fn translate_text_appends_after_existing_events() {
    let mut out: Vec<Ev> = vec![UiEvent::WindowFocused(true)];
    translate_text("\n".to_string(), &mut out);
    translate_text("q".to_string(), &mut out);
    assert_eq!(
        out,
        vec![
            UiEvent::WindowFocused(true),
            key(Key::Enter, true),
            key(Key::Enter, false),
            UiEvent::Text("q".to_string()),
        ]
    );
}

#[test]
fn focus_events_map_to_window_focus() {
    assert_eq!(run(RawEvent::FocusEnter), vec![UiEvent::WindowFocused(true)]);
    assert_eq!(run(RawEvent::FocusLeave), vec![UiEvent::WindowFocused(false)]);
}

#[test]
fn lifecycle_and_unknown_events_yield_nothing() {
    for e in [
        RawEvent::Quit,
        RawEvent::OverlayClosed,
        RawEvent::OverlayShown,
        RawEvent::OverlayHidden,
        RawEvent::Other(12345),
    ] {
        assert!(run(e).is_empty());
    }
}

#[test]
fn full_eight_byte_commit_is_kept_whole() {
    assert_eq!(run(commit(b"abcdefgh")), vec![UiEvent::Text("abcdefgh".to_string())]);
}
