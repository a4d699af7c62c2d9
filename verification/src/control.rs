//! The control-message surface of the playback subsystem: the closed set of
//! commands a producer may send to a live session, and the guard that rejects
//! commands when no session exists.

use vstd::prelude::*;
use crate::error::Error;

verus! {

/// A command addressed to the live playback session.  The set is closed:
/// every consumer matches on it exhaustively.
#[derive(Clone, Copy, Debug, PartialEq, Eq, Structural)]
pub enum PlaylistControl {
    /// Resume (or keep) playback.
    Play,
    /// Pause playback.
    Pause,
    /// Advance to the next track.
    Skip,
    /// Go back to the previous track (no-op at the first track).
    Previous,
    /// Seek forward within the current track by this many seconds.
    SkipBy(u64),
}

/// The character that renders the decimal digit `d`.
pub open spec fn digit_char(d: int) -> char {
    if d == 0 {
        '0'
    } else if d == 1 {
        '1'
    } else if d == 2 {
        '2'
    } else if d == 3 {
        '3'
    } else if d == 4 {
        '4'
    } else if d == 5 {
        '5'
    } else if d == 6 {
        '6'
    } else if d == 7 {
        '7'
    } else if d == 8 {
        '8'
    } else {
        '9'
    }
}

/// The usual decimal rendering of a non-negative integer, without leading
/// zeros (except for zero itself).
pub open spec fn dec_str(n: int) -> Seq<char>
    recommends
        n >= 0,
    decreases n,
{
    if n < 10 {
        seq![digit_char(n)]
    } else {
        dec_str(n / 10).push(digit_char(n % 10))
    }
}

/// The label `display_playlist_control` renders for each command.
pub open spec fn control_label(pc: PlaylistControl) -> Seq<char> {
    match pc {
        PlaylistControl::Play => "Play"@,
        PlaylistControl::Pause => "Pause"@,
        PlaylistControl::Skip => "Skip"@,
        PlaylistControl::Previous => "Previous"@,
        PlaylistControl::SkipBy(v) => "Skip By "@ + dec_str(v as int),
    }
}

/// The single decimal digit `d` as a string slice.
fn digit_str(d: u64) -> (s: &'static str)
    requires
        d < 10,
    ensures
        s@ == seq![digit_char(d as int)],
{
    proof {
        reveal_strlit("0");
        reveal_strlit("1");
        reveal_strlit("2");
        reveal_strlit("3");
        reveal_strlit("4");
        reveal_strlit("5");
        reveal_strlit("6");
        reveal_strlit("7");
        reveal_strlit("8");
        reveal_strlit("9");
    }
    let s = if d == 0 {
        "0"
    } else if d == 1 {
        "1"
    } else if d == 2 {
        "2"
    } else if d == 3 {
        "3"
    } else if d == 4 {
        "4"
    } else if d == 5 {
        "5"
    } else if d == 6 {
        "6"
    } else if d == 7 {
        "7"
    } else if d == 8 {
        "8"
    } else {
        "9"
    };
    proof {
        assert(s@ =~= seq![digit_char(d as int)]);
    }
    s
}

/// Renders `n` in decimal.
pub fn u64_to_string(n: u64) -> (s: String)
    ensures
        s@ == dec_str(n as int),
    decreases n,
{
    if n < 10 {
        digit_str(n).to_owned()
    } else {
        let mut s = u64_to_string(n / 10);
        s.append(digit_str(n % 10));
        proof {
            assert(s@ =~= dec_str(n as int));
        }
        s
    }
}

/// The human-readable name of a control command, as shown when reporting a
/// failed send.
pub fn display_playlist_control(playlist_control: &PlaylistControl) -> (s: String)
    ensures
        s@ == control_label(*playlist_control),
{
    match playlist_control {
        PlaylistControl::Play => "Play".to_owned(),
        PlaylistControl::Pause => "Pause".to_owned(),
        PlaylistControl::Skip => "Skip".to_owned(),
        PlaylistControl::Previous => "Previous".to_owned(),
        PlaylistControl::SkipBy(v) => {
            let prefix = "Skip By ".to_owned();
            prefix.concat(u64_to_string(*v).as_str())
        },
    }
}

/// A command may only be dispatched while a session is live; with no active
/// session it is rejected locally and never reaches the core.
pub fn guard_dispatch(has_active_session: bool) -> (r: Result<(), Error>)
    ensures
        r is Ok <==> has_active_session,
        r is Err ==> r->Err_0 == Error::NoActiveSession,
{
    if has_active_session {
        Ok(())
    } else {
        Err(Error::NoActiveSession)
    }
}

} // verus!
