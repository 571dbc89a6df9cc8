//! Media controls: what the transport buttons show, the commands that a click
//! or a drag sends to the selected player, and the texts of the panel.
use vstd::prelude::*;
use crate::players::views;

verus! {

/// Playback status of a player.
#[derive(Clone, Copy, Debug, PartialEq, Eq, Structural)]
pub enum Playback {
    Playing,
    Paused,
    Stopped,
}

/// Loop status of a player.
#[derive(Clone, Copy, Debug, PartialEq, Eq, Structural)]
pub enum LoopMode {
    Off,
    Track,
    Playlist,
}

/// A request for the selected player, issued after the UI pass.
#[derive(Clone, Debug, PartialEq, Eq)]
pub enum Command {
    Play,
    Pause,
    Stop,
    Next,
    Previous,
    SetShuffle(bool),
    SetLoop(LoopMode),
    /// Seek within the track `track_id` to `micros` microseconds.
    SetPosition { track_id: String, micros: u64 },
}

/// A status that could not be read counts as stopped.
pub open spec fn status_or_default(status: Option<Playback>) -> Playback {
    match status {
        Some(s) => s,
        None => Playback::Stopped,
    }
}

/// The play/pause button shows "pause" exactly while the player is playing.
pub fn shows_pause(status: Option<Playback>) -> (r: bool)
    ensures
        r == (status_or_default(status) == Playback::Playing),
{
    match status {
        Some(Playback::Playing) => true,
        _ => false,
    }
}

/// A click on the play/pause button pauses a playing player, else plays.
pub fn play_pause_command(status: Option<Playback>) -> (r: Command)
    ensures
        status_or_default(status) == Playback::Playing ==> r == Command::Pause,
        status_or_default(status) != Playback::Playing ==> r == Command::Play,
{
    if shows_pause(status) {
        Command::Pause
    } else {
        Command::Play
    }
}

/// A click on the shuffle button turns shuffling to the opposite of its state;
/// a state that could not be read counts as off.
pub fn shuffle_command(state: Option<bool>) -> (r: Command)
    ensures
        r == Command::SetShuffle(
            !match state {
                Some(b) => b,
                None => false,
            },
        ),
{
    match state {
        Some(b) => Command::SetShuffle(!b),
        None => Command::SetShuffle(true),
    }
}

/// A click on the loop button loops the track when looping is off, and turns
/// looping off otherwise; a status that could not be read counts as off.
pub fn loop_command(status: Option<LoopMode>) -> (r: Command)
    ensures
        (status == Some(LoopMode::Track) || status == Some(LoopMode::Playlist)) ==> r
            == Command::SetLoop(LoopMode::Off),
        (status == Some(LoopMode::Off) || status.is_none()) ==> r == Command::SetLoop(
            LoopMode::Track,
        ),
{
    match status {
        Some(LoopMode::Track) | Some(LoopMode::Playlist) => Command::SetLoop(LoopMode::Off),
        _ => Command::SetLoop(LoopMode::Track),
    }
}

/// The position slider moved from `current` to `target` (microseconds): a
/// seek is issued exactly when the position changed and the track has an id.
pub fn seek_command(current: u64, target: u64, track_id: Option<String>) -> (r: Option<Command>)
    ensures
        r.is_some() == (current != target && track_id.is_some()),
        r matches Some(c) ==> track_id matches Some(id) && c == (Command::SetPosition {
            track_id: id,
            micros: target,
        }),
{
    if current == target {
        return None;
    }
    match track_id {
        Some(id) => Some(Command::SetPosition { track_id: id, micros: target }),
        None => None,
    }
}

/// Relies on String::push: the character is appended at the end.
#[verifier::external_body]
fn push_char(s: &mut String, c: char)
    ensures
        final(s)@ == old(s)@.push(c),
{
    s.push(c)
}

pub open spec fn digit_char(d: nat) -> char {
    if d == 0 {
        '0'
    } else if d == 1 {
        '1'
    } else if d == 2 {
        '2'
    } else if d == 3 {
        '3'
    } else if d == 4 {
        '4'
    } else if d == 5 {
        '5'
    } else if d == 6 {
        '6'
    } else if d == 7 {
        '7'
    } else if d == 8 {
        '8'
    } else {
        '9'
    }
}

/// Decimal digits of `n`, without leading zeros.
pub open spec fn decimal(n: nat) -> Seq<char>
    decreases n,
{
    if n < 10 {
        seq![digit_char(n)]
    } else {
        decimal(n / 10).push(digit_char(n % 10))
    }
}

/// Decimal digits of `n`, padded with a zero to at least two.
pub open spec fn two_digits(n: nat) -> Seq<char> {
    if n < 10 {
        seq!['0', digit_char(n)]
    } else {
        decimal(n)
    }
}

/// `MM:SS` below an hour, else `HH:MM:SS`; hours are not wrapped.
pub open spec fn time_text(total: nat) -> Seq<char> {
    let secs = total % 60;
    let minutes = (total / 60) % 60;
    let hours = total / 3600;
    if hours == 0 {
        two_digits(minutes) + seq![':'] + two_digits(secs)
    } else {
        two_digits(hours) + seq![':'] + two_digits(minutes) + seq![':'] + two_digits(secs)
    }
}

fn digit(d: u64) -> (c: char)
    requires
        d < 10,
    ensures
        c == digit_char(d as nat),
{
    match d {
        0 => '0',
        1 => '1',
        2 => '2',
        3 => '3',
        4 => '4',
        5 => '5',
        6 => '6',
        7 => '7',
        8 => '8',
        _ => '9',
    }
}

fn push_decimal(s: &mut String, n: u64)
    ensures
        final(s)@ == old(s)@ + decimal(n as nat),
    decreases n,
{
    if n >= 10 {
        push_decimal(s, n / 10);
    }
    push_char(s, digit(n % 10));
    assert(s@ =~= old(s)@ + decimal(n as nat));
}

fn push_two_digits(s: &mut String, n: u64)
    ensures
        final(s)@ == old(s)@ + two_digits(n as nat),
{
    if n < 10 {
        push_char(s, '0');
    }
    push_decimal(s, n);
    assert(s@ =~= old(s)@ + two_digits(n as nat));
}

/// Formats a duration in whole seconds as `MM:SS`, or `HH:MM:SS` from an hour
/// on, each field at least two digits wide.
pub fn format_time(total_secs: u64) -> (r: String)
    ensures
        r@ == time_text(total_secs as nat),
{
    let secs = total_secs % 60;
    let minutes = (total_secs / 60) % 60;
    let hours = (total_secs / 60) / 60;
    assert(hours == total_secs / 3600) by (nonlinear_arith)
        requires
            hours == (total_secs / 60) / 60,
    {
        vstd::arithmetic::div_mod::lemma_div_denominator(total_secs as int, 60, 60);
    }
    let mut s = String::new();
    if hours > 0 {
        push_two_digits(&mut s, hours);
        push_char(&mut s, ':');
    }
    push_two_digits(&mut s, minutes);
    push_char(&mut s, ':');
    push_two_digits(&mut s, secs);
    assert(s@ =~= time_text(total_secs as nat));
    s
}

/// Names joined with ", ".
pub open spec fn joined(names: Seq<Seq<char>>) -> Seq<char>
    decreases names.len(),
{
    if names.len() == 0 {
        seq![]
    } else if names.len() == 1 {
        names[0]
    } else {
        joined(names.drop_last()) + seq![',', ' '] + names.last()
    }
}

/// The line naming the track: the artists joined with ", " and followed by
/// " - " when that is not empty, then the title, or "?" without one.
pub open spec fn label_text(title: Option<Seq<char>>, artists: Option<Seq<Seq<char>>>) -> Seq<char> {
    let names = match artists {
        Some(a) => joined(a),
        None => seq![],
    };
    let prefix = if names.len() == 0 {
        names
    } else {
        names + seq![' ', '-', ' ']
    };
    prefix + match title {
        Some(t) => t,
        None => seq!['?'],
    }
}

pub open spec fn opt_view(o: Option<String>) -> Option<Seq<char>> {
    match o {
        Some(t) => Some(t@),
        None => None,
    }
}

pub open spec fn opt_views(o: Option<Vec<String>>) -> Option<Seq<Seq<char>>> {
    match o {
        Some(v) => Some(views(v@)),
        None => None,
    }
}

/// The line naming the current track, from its title and artists.
pub fn track_label(title: Option<String>, artists: Option<Vec<String>>) -> (r: String)
    ensures
        r@ == label_text(opt_view(title), opt_views(artists)),
{
    let mut s = String::new();
    let ghost names: Seq<Seq<char>> = match opt_views(artists) {
        Some(v) => v,
        None => seq![],
    };
    match &artists {
        Some(a) => {
            let mut i: usize = 0;
            while i < a.len()
                invariant
                    i <= a@.len(),
                    names == views(a@),
                    s@ == joined(names.take(i as int)),
                decreases a@.len() - i,
            {
                if i > 0 {
                    push_char(&mut s, ',');
                    push_char(&mut s, ' ');
                }
                s.append(a[i].as_str());
                proof {
                    let t = names.take(i + 1);
                    assert(t.drop_last() =~= names.take(i as int));
                    assert(t.last() == a@[i as int]@);
                }
                i = i + 1;
                assert(s@ =~= joined(names.take(i as int)));
            }
            assert(names.take(a@.len() as int) =~= names);
        },
        None => {},
    }
    assert(s@ == joined(names));
    if s.as_str().unicode_len() > 0 {
        push_char(&mut s, ' ');
        push_char(&mut s, '-');
        push_char(&mut s, ' ');
    }
    match &title {
        Some(t) => s.append(t.as_str()),
        None => push_char(&mut s, '?'),
    }
    assert(s@ =~= label_text(opt_view(title), opt_views(artists)));
    s
}

/// The `file://` URI of an absolute path.
pub fn file_uri(path: &str) -> (r: String)
    ensures
        r@ == seq!['f', 'i', 'l', 'e', ':', '/', '/'] + path@,
{
    let mut s = String::from_str("file://");
    s.append(path);
    proof {
        reveal_strlit("file://");
    }
    assert(s@ =~= seq!['f', 'i', 'l', 'e', ':', '/', '/'] + path@);
    s
}

} // verus!
