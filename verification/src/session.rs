//! The playback session: one live run over a playlist's tracks.
//!
//! The session is modelled as an actor.  A single task owns the
//! [`PlaybackSession`] together with the audio sink; every other task talks
//! to it only by sending a [`PlaylistControl`] command.  Each command is
//! mapped by [`PlaybackSession::on_command`] to a new session state plus the
//! [`ControlAction`] the owning task must carry out on the sink, so all the
//! decisions live here and are verified, while the sink calls and the waiting
//! stay in the surrounding runtime.
//!
//! Time is explicit: the owning task reads its monotonic clock (in
//! milliseconds) and hands the reading in, which makes the elapsed/remaining
//! accounting a pure function of the inputs.

use vstd::prelude::*;
use crate::control::PlaylistControl;
use crate::error::Error;

verus! {

/// Milliseconds assumed for a track whose duration cannot be determined.
pub const FALLBACK_DURATION_MS: u64 = 5000;

/// The floor applied to a recomputed remaining time, so that a resume never
/// arms a zero-length (or negative) timer.
pub const MIN_REMAINING_MS: u64 = 1000;

/// Whether the current track is audibly playing or paused.
#[derive(Clone, Copy, Debug, PartialEq, Eq, Structural)]
pub enum PlaybackState {
    Playing,
    Paused,
}

/// The transient state of one playback run.
///
/// `current_index` ranges over `[0, track_count]`; reaching `track_count`
/// is the terminal sentinel ("playback finished").  `elapsed_ms` is the play
/// time accumulated on the current track before `started_ms`, the monotonic
/// timestamp at which playback last (re)started; while the state is
/// `Playing`, true elapsed time is `elapsed_ms + (now - started_ms)`.
#[derive(Clone, Copy, Debug, PartialEq, Eq, Structural)]
pub struct PlaybackSession {
    pub current_index: usize,
    pub elapsed_ms: u64,
    pub started_ms: u64,
    pub duration_ms: u64,
    pub state: PlaybackState,
}

/// What the actor must do to the audio sink (and to its own wait) after a
/// command has been applied to the session.
#[derive(Clone, Copy, Debug, PartialEq, Eq, Structural)]
pub enum ControlAction {
    /// Pause the sink.
    PauseSink,
    /// Resume the sink and re-arm the timer with the recomputed remainder.
    ResumeSink,
    /// Seek the sink to this absolute position (milliseconds).
    SeekSink(u64),
    /// The track index changed: abandon the current wait and re-read
    /// `current_index` from the top of the driver loop.
    Reevaluate,
    /// The command was an idempotent repeat; nothing to do.
    NoEffect,
}

/// The controller transition: how one command transforms the session and
/// which action it demands.  Arithmetic is exact (over `int`); the executable
/// [`PlaybackSession::on_command`] matches it wherever the results fit the
/// machine words, and refuses the seek otherwise.
pub open spec fn ctrl_step(
    s: PlaybackSession,
    cmd: PlaylistControl,
    now_ms: u64,
    sink_pos_ms: u64,
) -> (PlaybackSession, Result<ControlAction, Error>) {
    match cmd {
        PlaylistControl::Pause => if s.state is Playing {
            (
                (PlaybackSession {
                    elapsed_ms: (s.elapsed_ms + (now_ms - s.started_ms)) as u64,
                    state: PlaybackState::Paused,
                    ..s
                }),
                Ok(ControlAction::PauseSink),
            )
        } else {
            (s, Ok(ControlAction::NoEffect))
        },
        PlaylistControl::Play => if s.state is Paused {
            (
                (PlaybackSession { started_ms: now_ms, state: PlaybackState::Playing, ..s }),
                Ok(ControlAction::ResumeSink),
            )
        } else {
            (s, Ok(ControlAction::NoEffect))
        },
        PlaylistControl::Skip => (
            (PlaybackSession { current_index: (s.current_index + 1) as usize, ..s }),
            Ok(ControlAction::Reevaluate),
        ),
        PlaylistControl::Previous => (
            (PlaybackSession {
                current_index: if s.current_index > 0 {
                    (s.current_index - 1) as usize
                } else {
                    0
                },
                ..s
            }),
            Ok(ControlAction::Reevaluate),
        ),
        PlaylistControl::SkipBy(v) => if sink_pos_ms + v * 1000 <= s.duration_ms {
            (s, Ok(ControlAction::SeekSink((sink_pos_ms + v * 1000) as u64)))
        } else {
            (s, Err(Error::SeekError))
        },
    }
}

/// The time still to play on the current track once the accumulated elapsed
/// time is taken into account; when the subtraction would be non-positive,
/// the floor [`MIN_REMAINING_MS`] is used instead, so that a resume never
/// arms a zero-length timer.
pub open spec fn spec_remaining_ms(s: PlaybackSession) -> int {
    if s.elapsed_ms < s.duration_ms {
        s.duration_ms - s.elapsed_ms
    } else {
        MIN_REMAINING_MS as int
    }
}

/// Playback is finished once the index has reached the sentinel value
/// `track_count`.
pub open spec fn spec_finished(s: PlaybackSession, track_count: usize) -> bool {
    s.current_index >= track_count
}

impl PlaybackSession {
    /// A fresh session: first track, nothing elapsed, playing.
    pub fn begin(now_ms: u64) -> (s: Self)
        ensures
            s == (PlaybackSession {
                current_index: 0,
                elapsed_ms: 0,
                started_ms: now_ms,
                duration_ms: 0,
                state: PlaybackState::Playing,
            }),
    {
        PlaybackSession {
            current_index: 0,
            elapsed_ms: 0,
            started_ms: now_ms,
            duration_ms: 0,
            state: PlaybackState::Playing,
        }
    }

    /// Applies one control command, exactly as [`ctrl_step`] states.
    ///
    /// `now_ms` is the owning task's monotonic clock reading, so it never
    /// lies before the recorded start timestamp; the two `requires` on the
    /// counters only keep the exact results inside the machine words.
    pub fn on_command(
        &mut self,
        cmd: PlaylistControl,
        now_ms: u64,
        sink_pos_ms: u64,
    ) -> (r: Result<ControlAction, Error>)
        requires
            cmd is Pause && old(self).state is Playing ==> now_ms >= old(self).started_ms
                && old(self).elapsed_ms + (now_ms - old(self).started_ms) <= u64::MAX,
            cmd is Skip ==> old(self).current_index < usize::MAX,
        ensures
            ({
                let (s2, r2) = ctrl_step(*old(self), cmd, now_ms, sink_pos_ms);
                *final(self) == s2 && r == r2
            }),
    {
        match cmd {
            PlaylistControl::Pause => {
                if let PlaybackState::Playing = self.state {
                    self.elapsed_ms = self.elapsed_ms + (now_ms - self.started_ms);
                    self.state = PlaybackState::Paused;
                    Ok(ControlAction::PauseSink)
                } else {
                    Ok(ControlAction::NoEffect)
                }
            },
            PlaylistControl::Play => {
                if let PlaybackState::Paused = self.state {
                    self.started_ms = now_ms;
                    self.state = PlaybackState::Playing;
                    Ok(ControlAction::ResumeSink)
                } else {
                    Ok(ControlAction::NoEffect)
                }
            },
            PlaylistControl::Skip => {
                self.current_index = self.current_index + 1;
                Ok(ControlAction::Reevaluate)
            },
            PlaylistControl::Previous => {
                if self.current_index > 0 {
                    self.current_index = self.current_index - 1;
                }
                Ok(ControlAction::Reevaluate)
            },
            PlaylistControl::SkipBy(v) => {
                if v <= u64::MAX / 1000 {
                    let step_ms: u64 = v * 1000;
                    if sink_pos_ms <= u64::MAX - step_ms {
                        let target: u64 = sink_pos_ms + step_ms;
                        if target <= self.duration_ms {
                            Ok(ControlAction::SeekSink(target))
                        } else {
                            Err(Error::SeekError)
                        }
                    } else {
                        Err(Error::SeekError)
                    }
                } else {
                    proof {
                        assert(v * 1000 > u64::MAX) by (nonlinear_arith)
                            requires
                                v > u64::MAX / 1000,
                                v <= u64::MAX,
                        {
                        }
                    }
                    Err(Error::SeekError)
                }
            },
        }
    }

    /// Starts the track at the current index: duration recorded, elapsed
    /// cleared, clock re-based, state playing.
    pub fn on_track_start(&mut self, duration_ms: u64, now_ms: u64)
        ensures
            *final(self) == (PlaybackSession {
                current_index: old(self).current_index,
                elapsed_ms: 0,
                started_ms: now_ms,
                duration_ms: duration_ms,
                state: PlaybackState::Playing,
            }),
    {
        self.elapsed_ms = 0;
        self.started_ms = now_ms;
        self.duration_ms = duration_ms;
        self.state = PlaybackState::Playing;
    }

    /// The current track played to its natural end: advance to the next
    /// index (possibly the terminal sentinel) and clear the elapsed time.
    pub fn on_track_complete(&mut self)
        requires
            old(self).current_index < usize::MAX,
        ensures
            *final(self) == (PlaybackSession {
                current_index: (old(self).current_index + 1) as usize,
                elapsed_ms: 0,
                ..*old(self)
            }),
    {
        self.current_index = self.current_index + 1;
        self.elapsed_ms = 0;
    }

    /// The timer the driver must re-arm after a resume: the track's duration
    /// minus everything already played, or [`MIN_REMAINING_MS`] when nothing
    /// positive remains.
    pub fn remaining_ms(&self) -> (r: u64)
        ensures
            r == spec_remaining_ms(*self),
    {
        if self.elapsed_ms < self.duration_ms {
            self.duration_ms - self.elapsed_ms
        } else {
            MIN_REMAINING_MS
        }
    }

    /// Whether the session has passed the last track of a playlist with
    /// `track_count` tracks.
    pub fn is_finished(&self, track_count: usize) -> (r: bool)
        ensures
            r == spec_finished(*self, track_count),
    {
        self.current_index >= track_count
    }
}

/// Pausing is idempotent: a second `Pause`, whenever it arrives, leaves the
/// session exactly as the first left it — in particular the elapsed time is
/// not subtracted twice — and demands nothing further of the sink.
pub proof fn lemma_pause_idempotent(
    s: PlaybackSession,
    t1: u64,
    p1: u64,
    t2: u64,
    p2: u64,
)
    ensures
        ({
            let (s1, _) = ctrl_step(s, PlaylistControl::Pause, t1, p1);
            let (s2, r2) = ctrl_step(s1, PlaylistControl::Pause, t2, p2);
            &&& s1.state is Paused
            &&& s2 == s1
            &&& r2 == Ok::<ControlAction, Error>(ControlAction::NoEffect)
        }),
{
}

/// `Skip` followed by `Previous` returns to the index it started from.
pub proof fn lemma_skip_previous_round_trip(
    s: PlaybackSession,
    t1: u64,
    p1: u64,
    t2: u64,
    p2: u64,
)
    requires
        s.current_index < usize::MAX,
    ensures
        ({
            let (s1, _) = ctrl_step(s, PlaylistControl::Skip, t1, p1);
            let (s2, _) = ctrl_step(s1, PlaylistControl::Previous, t2, p2);
            s2.current_index == s.current_index
        }),
{
}

/// `Previous` at the first track stays at the first track.
pub proof fn lemma_previous_at_zero(s: PlaybackSession, now_ms: u64, pos_ms: u64)
    requires
        s.current_index == 0,
    ensures
        ctrl_step(s, PlaylistControl::Previous, now_ms, pos_ms).0.current_index == 0,
{
}

/// `Skip` at the last track moves to the terminal sentinel, so the driver
/// ends the session on its next iteration.
pub proof fn lemma_skip_at_last(
    s: PlaybackSession,
    track_count: usize,
    now_ms: u64,
    pos_ms: u64,
)
    requires
        track_count >= 1,
        s.current_index == track_count - 1,
    ensures
        spec_finished(ctrl_step(s, PlaylistControl::Skip, now_ms, pos_ms).0, track_count),
{
}

/// Elapsed accounting across a pause/resume cycle: pausing after some play
/// time and resuming later — however long the pause lasted — leaves exactly
/// the unplayed part of the track as the remaining time, neither the full
/// duration nor a negative amount.
pub proof fn lemma_pause_resume_remaining(
    s: PlaybackSession,
    t_pause: u64,
    t_resume: u64,
    p1: u64,
    p2: u64,
)
    requires
        s.state is Playing,
        t_pause >= s.started_ms,
        s.elapsed_ms + (t_pause - s.started_ms) < s.duration_ms,
    ensures
        ({
            let (s1, _) = ctrl_step(s, PlaylistControl::Pause, t_pause, p1);
            let (s2, _) = ctrl_step(s1, PlaylistControl::Play, t_resume, p2);
            spec_remaining_ms(s2) == s.duration_ms - (s.elapsed_ms + (t_pause - s.started_ms))
        }),
{
}

/// A relative seek that stays within the track succeeds and targets exactly
/// the current position advanced by the requested seconds; one that would
/// pass the end of the track is refused with `SeekError` and leaves the
/// session untouched, so the controller simply carries on.
pub proof fn lemma_skip_by(s: PlaybackSession, v: u64, now_ms: u64, pos_ms: u64)
    ensures
        ({
            let (s2, r) = ctrl_step(s, PlaylistControl::SkipBy(v), now_ms, pos_ms);
            &&& s2 == s
            &&& (pos_ms + v * 1000 <= s.duration_ms <==> r == Ok::<ControlAction, Error>(
                ControlAction::SeekSink((pos_ms + v * 1000) as u64),
            ))
            &&& (pos_ms + v * 1000 > s.duration_ms <==> r == Err::<ControlAction, Error>(
                Error::SeekError,
            ))
        }),
{
}

/// The duration to assume for the current track: the decoded duration when
/// one is known, otherwise the fixed fallback.
pub fn duration_or_default(duration_ms: Option<u64>) -> (r: u64)
    ensures
        duration_ms is Some ==> r == duration_ms->0,
        duration_ms is None ==> r == FALLBACK_DURATION_MS,
{
    match duration_ms {
        Some(d) => d,
        None => FALLBACK_DURATION_MS,
    }
}

} // verus!
