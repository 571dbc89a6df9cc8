//! Translation of overlay input events into the event vocabulary of the UI.
//!
//! Positions and scroll deltas are carried through unchanged as a value of
//! the caller's choice `P`; scaling them into UI points is the caller's part.
use vstd::prelude::*;
use vstd::utf8::{decode_utf8, valid_utf8};

verus! {

/// Size of the buffer that a keyboard commit is decoded from.
pub const COMMIT_BUFFER_LEN: usize = 12;

#[derive(Clone, Copy, Debug, PartialEq, Eq, Structural)]
pub enum PointerButton {
    Primary,
    Secondary,
    Middle,
    Extra1,
}

#[derive(Clone, Copy, Debug, PartialEq, Eq, Structural)]
pub enum Key {
    Enter,
    Backspace,
}

/// An overlay event, decoded from the compositor's record.
#[derive(Debug, PartialEq)]
pub enum RawEvent<P> {
    Quit,
    OverlayClosed,
    MouseMove(P),
    MouseButton { pos: P, button: u32, pressed: bool },
    Scroll(P),
    /// A keyboard commit: a NUL-terminated byte buffer.
    CharInput([u8; 12]),
    FocusEnter,
    FocusLeave,
    OverlayShown,
    OverlayHidden,
    /// Any other event kind, by its numeric code.
    Other(u32),
}

/// An input event as the UI consumes it.
#[derive(Debug, PartialEq)]
pub enum UiEvent<P> {
    PointerMoved(P),
    PointerButton { pos: P, button: PointerButton, pressed: bool },
    Scroll(P),
    Key { key: Key, pressed: bool },
    Text(String),
    WindowFocused(bool),
}

/// Device button codes 1, 2, 3 are the primary, secondary and middle
/// buttons; every other code is the extra button.
pub open spec fn button_of(code: u32) -> PointerButton {
    if code == 1 {
        PointerButton::Primary
    } else if code == 2 {
        PointerButton::Secondary
    } else if code == 3 {
        PointerButton::Middle
    } else {
        PointerButton::Extra1
    }
}

pub fn map_button(code: u32) -> (r: PointerButton)
    ensures
        r == button_of(code),
{
    match code {
        1 => PointerButton::Primary,
        2 => PointerButton::Secondary,
        3 => PointerButton::Middle,
        _ => PointerButton::Extra1,
    }
}

/// Index of the first NUL at or after `i`, or the length when there is none.
pub open spec fn nul_from(b: Seq<u8>, i: int) -> int
    decreases b.len() - i,
{
    if i < 0 || i >= b.len() {
        b.len() as int
    } else if b[i] == 0 {
        i
    } else {
        nul_from(b, i + 1)
    }
}

/// The text of a commit buffer: the bytes before the first NUL, decoded as
/// UTF-8; none when there is no NUL or those bytes are not valid UTF-8.
pub open spec fn commit_text(b: Seq<u8>) -> Option<Seq<char>> {
    let n = nul_from(b, 0);
    if n < b.len() && valid_utf8(b.take(n)) {
        Some(decode_utf8(b.take(n)))
    } else {
        None
    }
}

/// A press immediately followed by a release of `key`.
pub open spec fn is_key_pair<P>(out: Seq<UiEvent<P>>, key: Key) -> bool {
    &&& out.len() == 2
    &&& out[0] == UiEvent::<P>::Key { key, pressed: true }
    &&& out[1] == UiEvent::<P>::Key { key, pressed: false }
}

/// What a committed text becomes: Enter or Backspace as a key press and
/// release when it is that single control character, else a text insertion.
pub open spec fn is_text_translation<P>(s: Seq<char>, out: Seq<UiEvent<P>>) -> bool {
    if s == seq!['\n'] {
        is_key_pair(out, Key::Enter)
    } else if s == seq!['\x08'] {
        is_key_pair(out, Key::Backspace)
    } else {
        out.len() == 1 && (out[0] matches UiEvent::Text(t) && t@ == s)
    }
}

/// The UI events that one overlay event becomes.
pub open spec fn is_translation<P>(e: RawEvent<P>, out: Seq<UiEvent<P>>) -> bool {
    match e {
        RawEvent::MouseMove(p) => out == seq![UiEvent::PointerMoved(p)],
        RawEvent::MouseButton { pos, button, pressed } => out == seq![
            UiEvent::PointerButton { pos, button: button_of(button), pressed },
        ],
        RawEvent::Scroll(d) => out == seq![UiEvent::Scroll(d)],
        RawEvent::CharInput(buf) => match commit_text(buf@) {
            Some(s) => is_text_translation(s, out),
            None => out.len() == 0,
        },
        RawEvent::FocusEnter => out == seq![UiEvent::<P>::WindowFocused(true)],
        RawEvent::FocusLeave => out == seq![UiEvent::<P>::WindowFocused(false)],
        _ => out.len() == 0,
    }
}

/// Relies on std::str::from_utf8: it succeeds exactly on valid UTF-8, and the
/// string then holds the characters those bytes encode.
#[verifier::external_body]
fn utf8_string(bytes: &[u8]) -> (r: Option<String>)
    ensures
        r.is_some() == valid_utf8(bytes@),
        r matches Some(s) ==> s@ == decode_utf8(bytes@),
{
    std::str::from_utf8(bytes).ok().map(|s| s.to_string())
}

/// Index of the first NUL byte of `buf`, or its length when there is none.
pub fn find_nul(buf: &[u8; 12]) -> (r: usize)
    ensures
        r as int == nul_from(buf@, 0),
{
    let mut i: usize = 0;
    while i < COMMIT_BUFFER_LEN && buf[i] != 0
        invariant
            0 <= i <= 12,
            nul_from(buf@, 0) == nul_from(buf@, i as int),
        decreases 12 - i,
    {
        i = i + 1;
    }
    i
}

/// Decodes a keyboard commit buffer: the bytes before the first NUL, as UTF-8.
pub fn decode_commit(buf: &[u8; 12]) -> (r: Option<String>)
    ensures
        r.is_some() == commit_text(buf@).is_some(),
        r matches Some(s) ==> commit_text(buf@) == Some(s@),
{
    let n = find_nul(buf);
    if n >= COMMIT_BUFFER_LEN {
        return None;
    }
    let mut prefix: Vec<u8> = Vec::new();
    let mut i: usize = 0;
    while i < n
        invariant
            n < 12,
            i <= n,
            prefix@ == buf@.take(i as int),
        decreases n - i,
    {
        prefix.push(buf[i]);
        i = i + 1;
        assert(prefix@ =~= buf@.take(i as int));
    }
    utf8_string(prefix.as_slice())
}

/// Appends to `out` the events of a committed text: a press and release of
/// Enter for a newline, of Backspace for the backspace control character,
/// else one text insertion holding the text as it is.
pub fn translate_text<P>(s: String, out: &mut Vec<UiEvent<P>>)
    ensures
        final(out)@.len() >= old(out)@.len(),
        final(out)@.take(old(out)@.len() as int) == old(out)@,
        is_text_translation(s@, final(out)@.skip(old(out)@.len() as int)),
{
    let ghost start = out@.len();
    let s_str = s.as_str();
    let single = s_str.unicode_len() == 1;
    let key = if single && s_str.get_char(0) == '\n' {
        Some(Key::Enter)
    } else if single && s_str.get_char(0) == '\x08' {
        Some(Key::Backspace)
    } else {
        None
    };
    proof {
        if single {
            assert(s@ == seq![s@[0]]);
        }
    }
    match key {
        Some(k) => {
            out.push(UiEvent::Key { key: k, pressed: true });
            out.push(UiEvent::Key { key: k, pressed: false });
        },
        None => {
            out.push(UiEvent::Text(s));
        },
    }
    assert(out@.take(start as int) =~= old(out)@);
}

/// Appends to `out` the UI events that one overlay event becomes: pointer
/// motion, buttons and scrolling keep their payload, the button code is
/// mapped, a keyboard commit is decoded and translated, focus changes become
/// window-focus events, and every other kind yields nothing.
pub fn translate<P>(event: RawEvent<P>, out: &mut Vec<UiEvent<P>>)
    ensures
        final(out)@.len() >= old(out)@.len(),
        final(out)@.take(old(out)@.len() as int) == old(out)@,
        is_translation(event, final(out)@.skip(old(out)@.len() as int)),
{
    let ghost start = out@.len();
    let ghost e = event;
    match event {
        RawEvent::MouseMove(p) => {
            out.push(UiEvent::PointerMoved(p));
        },
        RawEvent::MouseButton { pos, button, pressed } => {
            out.push(UiEvent::PointerButton { pos, button: map_button(button), pressed });
        },
        RawEvent::Scroll(d) => {
            out.push(UiEvent::Scroll(d));
        },
        RawEvent::CharInput(buf) => {
            match decode_commit(&buf) {
                Some(s) => translate_text(s, out),
                None => {},
            }
        },
        RawEvent::FocusEnter => {
            out.push(UiEvent::WindowFocused(true));
        },
        RawEvent::FocusLeave => {
            out.push(UiEvent::WindowFocused(false));
        },
        _ => {},
    }
    assert(out@.take(start as int) =~= old(out)@);
    proof {
        if out@.len() == start {
            assert(out@.skip(start as int) =~= Seq::<UiEvent<P>>::empty());
        } else if out@.len() == start + 1 {
            assert(out@.skip(start as int) =~= seq![out@[start as int]]);
        }
    }
}

/// A committed newline, or backspace control character, yields exactly a
/// press and then a release of Enter, or Backspace, and no text insertion.
pub proof fn lemma_control_commit_is_key_pair<P>(buf: [u8; 12], out: Seq<UiEvent<P>>)
    requires
        commit_text(buf@) == Some(seq!['\n']) || commit_text(buf@) == Some(seq!['\x08']),
        is_translation(RawEvent::<P>::CharInput(buf), out),
    ensures
        out.len() == 2,
        forall|i: int| 0 <= i < 2 ==> !(out[i] is Text),
        commit_text(buf@) == Some(seq!['\n']) ==> is_key_pair(out, Key::Enter),
        commit_text(buf@) == Some(seq!['\x08']) ==> is_key_pair(out, Key::Backspace),
{
    assert(seq!['\n'] != seq!['\x08']) by {
        assert(seq!['\n'][0] != seq!['\x08'][0]);
    }
}

} // verus!
