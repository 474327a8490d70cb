//! The song record that the preview server publishes.
use vstd::prelude::*;
use crate::text::{copy_opt, push_decimal};
#[allow(unused_imports)]
use crate::text::{
    decimal, decimal_reads_back, decimals_have_no_leading_zero, digits_value, is_digit, opt_text,
};

verus! {

/// How far a song has been played, in whole seconds. The percentage that listeners are shown
/// is the quotient of the two.
#[derive(Clone, Copy, Debug, PartialEq, Eq, Structural)]
pub struct Progress {
    pub position_secs: u64,
    pub duration_secs: u64,
}

/// What is known of the song that is being played.
#[derive(Debug, PartialEq)]
pub struct Song {
    pub title: String,
    pub artist: String,
    pub album: String,
    pub album_art: Option<String>,
    pub position: Option<String>,
    pub duration: Option<String>,
    pub progress: Option<Progress>,
    pub is_playing: bool,
    pub last_update: u64,
    pub font_family: String,
}

/// The values that a [`Song`] holds.
#[verifier::ext_equal]
pub struct SongView {
    pub title: Seq<char>,
    pub artist: Seq<char>,
    pub album: Seq<char>,
    pub album_art: Option<Seq<char>>,
    pub position: Option<Seq<char>>,
    pub duration: Option<Seq<char>>,
    pub progress: Option<Progress>,
    pub is_playing: bool,
    pub last_update: u64,
    pub font_family: Seq<char>,
}

impl View for Song {
    type V = SongView;

    open spec fn view(&self) -> SongView {
        SongView {
            title: self.title@,
            artist: self.artist@,
            album: self.album@,
            album_art: opt_text(self.album_art),
            position: opt_text(self.position),
            duration: opt_text(self.duration),
            progress: self.progress,
            is_playing: self.is_playing,
            last_update: self.last_update,
            font_family: self.font_family@,
        }
    }
}

/// The song record when nothing is known.
pub open spec fn no_song() -> SongView {
    SongView {
        title: seq![],
        artist: seq![],
        album: seq![],
        album_art: None,
        position: None,
        duration: None,
        progress: None,
        is_playing: false,
        last_update: 0,
        font_family: seq![],
    }
}

/// A number in decimal, with at least two digits.
pub open spec fn two_digits(n: nat) -> Seq<char> {
    if n < 10 {
        seq!['0'] + decimal(n)
    } else {
        decimal(n)
    }
}

/// A number of seconds as minutes and seconds, separated by a colon.
pub open spec fn clock(seconds: u64) -> Seq<char> {
    two_digits((seconds / 60) as nat).push(':') + two_digits((seconds % 60) as nat)
}

/// A song record after a reading of the player's timeline. A player that reports no duration
/// leaves the record as it is.
pub open spec fn timed(song: SongView, position_secs: u64, duration_secs: u64) -> SongView {
    if duration_secs > 0 {
        SongView {
            position: Some(clock(position_secs)),
            duration: Some(clock(duration_secs)),
            progress: Some(Progress { position_secs, duration_secs }),
            ..song
        }
    } else {
        song
    }
}

impl Clone for Song {
    fn clone(&self) -> (copy: Self)
        ensures
            copy == *self,
    {
        Song {
            title: self.title.clone(),
            artist: self.artist.clone(),
            album: self.album.clone(),
            album_art: copy_opt(&self.album_art),
            position: copy_opt(&self.position),
            duration: copy_opt(&self.duration),
            progress: self.progress,
            is_playing: self.is_playing,
            last_update: self.last_update,
            font_family: self.font_family.clone(),
        }
    }
}

impl Default for Song {
    fn default() -> (song: Self)
        ensures
            song@ == no_song(),
    {
        Song {
            title: String::new(),
            artist: String::new(),
            album: String::new(),
            album_art: None,
            position: None,
            duration: None,
            progress: None,
            is_playing: false,
            last_update: 0,
            font_family: String::new(),
        }
    }
}

impl Song {
    /// Takes over a reading of the player's timeline.
    pub fn set_timeline(&mut self, position_secs: u64, duration_secs: u64)
        ensures
            final(self)@ == timed(old(self)@, position_secs, duration_secs),
    {
        if duration_secs > 0 {
            self.position = Some(format_duration(position_secs));
            self.duration = Some(format_duration(duration_secs));
            self.progress = Some(Progress { position_secs, duration_secs });
        }
    }
}

/// Appends a number in decimal, with at least two digits.
fn push_two_digits(out: &mut String, n: u64)
    ensures
        final(out)@ == old(out)@ + two_digits(n as nat),
{
    if n < 10 {
        out.push('0');
    }
    push_decimal(out, n);
    assert(out@ =~= old(out)@ + two_digits(n as nat));
}

/// A number of seconds as minutes and seconds, such as `03:25`. Both have at least two digits.
pub fn format_duration(seconds: u64) -> (text: String)
    ensures
        text@ == clock(seconds),
{
    let mut text = String::new();
    push_two_digits(&mut text, seconds / 60);
    text.push(':');
    push_two_digits(&mut text, seconds % 60);
    assert(text@ =~= clock(seconds));
    text
}

/// No two numbers of seconds are written alike, so comparing the written positions of two
/// readings tells whether the position has changed.
pub proof fn clock_is_injective(a: u64, b: u64)
    requires
        clock(a) == clock(b),
    ensures
        a == b,
{
    let (am, as_, bm, bs) = ((a / 60) as nat, (a % 60) as nat, (b / 60) as nat, (b % 60) as nat);
    two_digits_length(as_);
    two_digits_length(bs);
    let n = clock(a).len();
    assert(clock(a).subrange(n - 2, n as int) =~= two_digits(as_));
    assert(clock(b).subrange(n - 2, n as int) =~= two_digits(bs));
    assert(clock(a).subrange(0, n - 3) =~= two_digits(am));
    assert(clock(b).subrange(0, n - 3) =~= two_digits(bm));
    two_digits_value(am);
    two_digits_value(bm);
    two_digits_value(as_);
    two_digits_value(bs);
}

/// A duration is told in minutes and seconds: the digits before the colon are the minutes, at least
/// two and with no zero in front of more; the two behind it are the seconds.
pub proof fn clock_tells_minutes_and_seconds(seconds: u64)
    ensures
        ({
            let n = clock(seconds).len() as int;
            let minutes = clock(seconds).subrange(0, n - 3);
            let rest = clock(seconds).subrange(n - 2, n);
            &&& n >= 5
            &&& clock(seconds)[n - 3] == ':'
            &&& digits_value(minutes) == seconds / 60
            &&& digits_value(rest) == seconds % 60
            &&& forall|i: int| 0 <= i < n && i != n - 3 ==> is_digit(#[trigger] clock(seconds)[i])
            &&& n > 5 ==> clock(seconds)[0] != '0'
        }),
{
    let (m, s) = ((seconds / 60) as nat, (seconds % 60) as nat);
    two_digits_length(s);
    two_digits_value(m);
    two_digits_value(s);
    decimal_reads_back(m);
    decimal_reads_back(s);
    decimals_have_no_leading_zero(m);
    let n = clock(seconds).len() as int;
    if m < 100 {
        two_digits_length(m);
    } else {
        reveal_with_fuel(decimal, 3);
    }
    assert(clock(seconds).subrange(0, n - 3) =~= two_digits(m));
    assert(clock(seconds).subrange(n - 2, n) =~= two_digits(s));
    assert forall|i: int| 0 <= i < n && i != n - 3 implies is_digit(
        #[trigger] clock(seconds)[i],
    ) by {
        if i < n - 3 {
            assert(clock(seconds)[i] == two_digits(m)[i]);
            if m < 10 {
                if i > 0 {
                    assert(is_digit(decimal(m)[i - 1]));
                }
            } else {
                assert(is_digit(decimal(m)[i]));
            }
        } else {
            assert(clock(seconds)[i] == two_digits(s)[i - (n - 2)]);
            if s < 10 {
                if i > n - 2 {
                    assert(is_digit(decimal(s)[i - (n - 2) - 1]));
                }
            } else {
                assert(is_digit(decimal(s)[i - (n - 2)]));
            }
        }
    }
}

/// A reading of the timeline without a duration changes nothing. Any other sets position, duration
/// and progress to what was read, and nothing else.
pub proof fn timelines_set_the_times_only(song: SongView, position_secs: u64, duration_secs: u64)
    ensures
        ({
            let after = timed(song, position_secs, duration_secs);
            &&& after.title == song.title
            &&& after.artist == song.artist
            &&& after.album == song.album
            &&& after.album_art == song.album_art
            &&& after.is_playing == song.is_playing
            &&& after.last_update == song.last_update
            &&& after.font_family == song.font_family
            &&& duration_secs > 0 ==> {
                &&& after.position == Some(clock(position_secs))
                &&& after.duration == Some(clock(duration_secs))
                &&& after.progress == Some(Progress { position_secs, duration_secs })
            }
            &&& duration_secs == 0 ==> {
                &&& after.position == song.position
                &&& after.duration == song.duration
                &&& after.progress == song.progress
            }
        }),
{
}

/// What is written for a duration is its clock, and that of no other.
pub proof fn durations_are_written_as_clocks(seconds: u64, text: String)
    requires
        call_ensures(format_duration, (seconds,), text),
    ensures
        text@.len() >= 5,
        text@[text@.len() - 3] == ':',
        60 * digits_value(text@.subrange(0, text@.len() - 3)) + digits_value(
            text@.subrange(text@.len() - 2, text@.len() as int),
        ) == seconds,
        digits_value(text@.subrange(text@.len() - 2, text@.len() as int)) < 60,
{
    clock_tells_minutes_and_seconds(seconds);
}

/// A number below a hundred takes two digits.
proof fn two_digits_length(n: nat)
    requires
        n < 100,
    ensures
        two_digits(n).len() == 2,
{
    reveal_with_fuel(decimal, 3);
}

/// The digits written for a number stand for it.
proof fn two_digits_value(n: nat)
    ensures
        digits_value(two_digits(n)) == n,
{
    decimal_reads_back(n);
    if n < 10 {
        reveal_with_fuel(digits_value, 3);
        assert(two_digits(n).drop_last() =~= seq!['0']);
        assert(decimal(n).drop_last() =~= seq![]);
    }
}

} // verus!
