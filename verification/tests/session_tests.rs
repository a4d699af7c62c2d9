use yta_cli::control::PlaylistControl;
use yta_cli::error::Error;
use yta_cli::session::ControlAction;
use yta_cli::session::PlaybackSession;
use yta_cli::session::PlaybackState;
use yta_cli::session::duration_or_default;

#[test]
fn begin_is_first_track_playing() {
    let s = PlaybackSession::begin(100);
    assert_eq!(s.current_index, 0);
    assert_eq!(s.elapsed_ms, 0);
    assert_eq!(s.started_ms, 100);
    assert_eq!(s.state, PlaybackState::Playing);
}

#[test]
fn pause_twice_is_idempotent() {
    let mut s = PlaybackSession::begin(0);
    s.on_track_start(10_000, 0);
    let first = s.on_command(PlaylistControl::Pause, 3_000, 0).unwrap();
    assert_eq!(first, ControlAction::PauseSink);
    assert_eq!(s.state, PlaybackState::Paused);
    assert_eq!(s.elapsed_ms, 3_000);
    let second = s.on_command(PlaylistControl::Pause, 9_000, 0).unwrap();
    assert_eq!(second, ControlAction::NoEffect);
    assert_eq!(s.state, PlaybackState::Paused);
    assert_eq!(s.elapsed_ms, 3_000);
}

#[test]
fn skip_then_previous_round_trips() {
    let mut s = PlaybackSession::begin(0);
    s.on_track_start(10_000, 0);
    s.current_index = 2;
    s.on_command(PlaylistControl::Skip, 10, 0).unwrap();
    assert_eq!(s.current_index, 3);
    s.on_command(PlaylistControl::Previous, 20, 0).unwrap();
    assert_eq!(s.current_index, 2);
}

#[test]
fn previous_at_zero_stays_at_zero() {
    let mut s = PlaybackSession::begin(0);
    let action = s.on_command(PlaylistControl::Previous, 10, 0).unwrap();
    assert_eq!(action, ControlAction::Reevaluate);
    assert_eq!(s.current_index, 0);
}

#[test]
fn skip_at_last_index_reaches_terminal_sentinel() {
    let track_count: usize = 3;
    let mut s = PlaybackSession::begin(0);
    s.current_index = track_count - 1;
    assert!(!s.is_finished(track_count));
    s.on_command(PlaylistControl::Skip, 10, 0).unwrap();
    assert_eq!(s.current_index, track_count);
    assert!(s.is_finished(track_count));
}

#[test]
fn pause_resume_leaves_unplayed_remainder() {
    let mut s = PlaybackSession::begin(0);
    s.on_track_start(10_000, 0);
    s.on_command(PlaylistControl::Pause, 3_000, 0).unwrap();
    // The pause may last arbitrarily long.
    let resume = s.on_command(PlaylistControl::Play, 77_777, 0).unwrap();
    assert_eq!(resume, ControlAction::ResumeSink);
    assert_eq!(s.remaining_ms(), 7_000);
    assert_eq!(s.state, PlaybackState::Playing);
}

#[test]
fn tiny_positive_remainder_is_kept() {
    let mut s = PlaybackSession::begin(0);
    s.on_track_start(10_000, 0);
    s.on_command(PlaylistControl::Pause, 9_800, 0).unwrap();
    assert_eq!(s.remaining_ms(), 200);
}

#[test]
fn exhausted_remainder_is_floored() {
    let mut s = PlaybackSession::begin(0);
    s.on_track_start(10_000, 0);
    s.on_command(PlaylistControl::Pause, 12_000, 0).unwrap();
    assert_eq!(s.remaining_ms(), 1_000);
}

#[test]
fn skip_by_within_track_seeks_to_absolute_position() {
    let mut s = PlaybackSession::begin(0);
    s.on_track_start(10_000, 0);
    let action = s.on_command(PlaylistControl::SkipBy(5), 2_000, 2_000).unwrap();
    assert_eq!(action, ControlAction::SeekSink(7_000));
}

#[test]
fn skip_by_beyond_track_end_is_a_seek_error() {
    let mut s = PlaybackSession::begin(0);
    s.on_track_start(10_000, 0);
    let before = s;
    let result = s.on_command(PlaylistControl::SkipBy(9), 2_000, 2_000);
    assert_eq!(result, Err(Error::SeekError));
    // The controller carries on: the session is untouched.
    assert_eq!(s, before);
    let ok = s.on_command(PlaylistControl::SkipBy(1), 2_500, 2_500).unwrap();
    assert_eq!(ok, ControlAction::SeekSink(3_500));
}

#[test]
fn skip_by_with_huge_argument_is_a_seek_error() {
    let mut s = PlaybackSession::begin(0);
    s.on_track_start(10_000, 0);
    let result = s.on_command(PlaylistControl::SkipBy(u64::MAX), 0, 0);
    assert_eq!(result, Err(Error::SeekError));
}

#[test]
fn end_to_end_command_scenario() {
    // Playlist "jazz" with three tracks; the commands arrive in order
    // [Play, Pause, Resume, Skip, Previous].
    let mut s = PlaybackSession::begin(0);
    s.on_track_start(10_000, 0);
    let commands = [
        (PlaylistControl::Play, 1_000u64),
        (PlaylistControl::Pause, 2_000),
        (PlaylistControl::Play, 3_000),
        (PlaylistControl::Skip, 4_000),
        (PlaylistControl::Previous, 5_000),
    ];
    let mut pauses = 0;
    let mut resumes = 0;
    for (cmd, now) in commands {
        match s.on_command(cmd, now, 0).unwrap() {
            ControlAction::PauseSink => pauses += 1,
            ControlAction::ResumeSink => resumes += 1,
            _ => {}
        }
    }
    assert_eq!(s.current_index, 0);
    assert_eq!(s.state, PlaybackState::Playing);
    assert_eq!(pauses, 1);
    assert_eq!(resumes, 1);
}

#[test]
fn track_complete_advances_and_clears_elapsed() {
    let mut s = PlaybackSession::begin(0);
    s.on_track_start(10_000, 0);
    s.on_command(PlaylistControl::Pause, 4_000, 0).unwrap();
    s.on_command(PlaylistControl::Play, 5_000, 0).unwrap();
    s.on_track_complete();
    assert_eq!(s.current_index, 1);
    assert_eq!(s.elapsed_ms, 0);
}

#[test]
fn unknown_duration_falls_back_to_five_seconds() {
    assert_eq!(duration_or_default(Some(123_456)), 123_456);
    assert_eq!(duration_or_default(None), 5_000);
}

#[test]
fn resume_while_playing_has_no_effect() {
    let mut s = PlaybackSession::begin(0);
    s.on_track_start(10_000, 0);
    let action = s.on_command(PlaylistControl::Play, 1_000, 0).unwrap();
    assert_eq!(action, ControlAction::NoEffect);
    assert_eq!(s.started_ms, 0);
    assert_eq!(s.state, PlaybackState::Playing);
}
