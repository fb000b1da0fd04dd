use vstd::prelude::*;
use vstd::string::*;
use crate::song::{RSong, opt_view};
use crate::text::string_of_char;
use crate::app::App;

verus! {

/// The character of a decimal digit.
pub open spec fn digit_char(d: nat) -> char {
    if d == 0 {
        '0'
    } else if d == 1 {
        '1'
    } else if d == 2 {
        '2'
    } else if d == 3 {
        '3'
    } else if d == 4 {
        '4'
    } else if d == 5 {
        '5'
    } else if d == 6 {
        '6'
    } else if d == 7 {
        '7'
    } else if d == 8 {
        '8'
    } else {
        '9'
    }
}

/// `n` in decimal, without leading zeros.
pub open spec fn decimal(n: nat) -> Seq<char>
    decreases n,
{
    if n < 10 {
        seq![digit_char(n)]
    } else {
        decimal(n / 10).push(digit_char(n % 10))
    }
}

/// `n` in decimal, padded with a zero to at least two digits.
pub open spec fn two_digits(n: nat) -> Seq<char> {
    if n < 10 {
        seq!['0', digit_char(n)]
    } else {
        decimal(n)
    }
}

/// A duration in seconds as `mm:ss`, or `hh:mm:ss` from one hour on.
pub open spec fn format_time_spec(secs: nat) -> Seq<char> {
    let h = secs / 3600;
    let m = (secs % 3600) / 60;
    let s = secs % 60;
    if h == 0 {
        two_digits(m) + seq![':'] + two_digits(s)
    } else {
        two_digits(h) + seq![':'] + two_digits(m) + seq![':'] + two_digits(s)
    }
}

fn digit(d: u64) -> (r: char)
    requires
        d < 10,
    ensures
        r == digit_char(d as nat),
{
    if d == 0 {
        '0'
    } else if d == 1 {
        '1'
    } else if d == 2 {
        '2'
    } else if d == 3 {
        '3'
    } else if d == 4 {
        '4'
    } else if d == 5 {
        '5'
    } else if d == 6 {
        '6'
    } else if d == 7 {
        '7'
    } else if d == 8 {
        '8'
    } else {
        '9'
    }
}

/// `n` in decimal.
pub fn decimal_string(n: u64) -> (r: String)
    ensures
        r@ == decimal(n as nat),
    decreases n,
{
    if n < 10 {
        string_of_char(digit(n))
    } else {
        let head = decimal_string(n / 10);
        let last = string_of_char(digit(n % 10));
        let r = head.concat(last.as_str());
        assert(r@ =~= decimal((n / 10) as nat).push(digit_char((n % 10) as nat)));
        r
    }
}

fn two_digit_string(n: u64) -> (r: String)
    ensures
        r@ == two_digits(n as nat),
{
    if n < 10 {
        let zero = "0";
        proof {
            reveal_strlit("0");
        }
        let r = String::from_str(zero).concat(string_of_char(digit(n)).as_str());
        assert(r@ =~= seq!['0', digit_char(n as nat)]);
        r
    } else {
        decimal_string(n)
    }
}

impl App {
    /// A duration in seconds as `mm:ss`, or `hh:mm:ss` from one hour on.
    pub fn format_time(secs: u64) -> (r: String)
        ensures
            r@ == format_time_spec(secs as nat),
    {
        let h = secs / 3600;
        let m = (secs % 3600) / 60;
        let s = secs % 60;
        let colon = String::from_str(":");
    proof {
        reveal_strlit(":");
    }
        let ms = two_digit_string(m).concat(colon.as_str()).concat(two_digit_string(s).as_str());
        if h == 0 {
            assert(ms@ =~= format_time_spec(secs as nat));
            ms
        } else {
            let r = two_digit_string(h).concat(colon.as_str()).concat(ms.as_str());
            assert(r@ =~= format_time_spec(secs as nat));
            r
        }
    }
}

/// What the status line shows for a song: `"title" By artist`, or the
/// title alone, or the path when the song has no title.
pub open spec fn now_playing_spec(title: Option<Seq<char>>, artist: Option<Seq<char>>, file: Seq<char>) -> Seq<char> {
    match title {
        Some(t) => match artist {
            Some(a) => seq!['"'] + t + seq!['"', ' ', 'B', 'y', ' '] + a,
            None => t,
        },
        None => file,
    }
}

/// What the status line shows for the playing song.
pub fn now_playing(song: &RSong) -> (r: String)
    ensures
        r@ == now_playing_spec(opt_view(song.title), opt_view(song.artist), song.file@),
{
    match &song.title {
        Some(t) => match &song.artist {
            Some(a) => {
                let quote = "\"";
                let by = "\" By ";
                proof {
                    reveal_strlit("\"");
                    reveal_strlit("\" By ");
                }
                let r = String::from_str(quote).concat(t.as_str()).concat(by).concat(a.as_str());
                assert(r@ =~= seq!['"'] + t@ + seq!['"', ' ', 'B', 'y', ' '] + a@);
                r
            },
            None => t.clone(),
        },
        None => song.file.clone(),
    }
}

/// The daemon's playback state.
#[derive(Debug, Clone, Copy, PartialEq, Eq, Structural)]
pub enum PlayState {
    Stop,
    Play,
    Pause,
}

pub open spec fn state_label_spec(s: PlayState) -> Seq<char> {
    match s {
        PlayState::Stop => seq!['S', 't', 'o', 'p', 'p', 'e', 'd'],
        PlayState::Play => seq!['P', 'l', 'a', 'y', 'i', 'n', 'g'],
        PlayState::Pause => seq!['P', 'a', 'u', 's', 'e', 'd'],
    }
}

/// The word the status line shows for the playback state.
pub fn state_label(s: PlayState) -> (r: String)
    ensures
        r@ == state_label_spec(s),
{
    let stopped = "Stopped";
    let playing = "Playing";
    let paused = "Paused";
    proof {
        reveal_strlit("Stopped");
        reveal_strlit("Playing");
        reveal_strlit("Paused");
    }
    assert(stopped@ =~= state_label_spec(PlayState::Stop));
    assert(playing@ =~= state_label_spec(PlayState::Play));
    assert(paused@ =~= state_label_spec(PlayState::Pause));
    match s {
        PlayState::Stop => String::from_str(stopped),
        PlayState::Play => String::from_str(playing),
        PlayState::Pause => String::from_str(paused),
    }
}

} // verus!
