use player_core::error::{AppError, ErrorContext, ErrorKind};
use player_core::playback_state::PlaybackState;
use player_core::preload::PreloadManager;
use player_core::recovery::{
    advance, begin, carry_out, decide_play, inactive_duration, needs_reinit, stage_of,
    PlayDecision, Purpose, SinkStatus, Snapshot, Stage, Step, LONG_PAUSE_THRESHOLD,
    RESTORE_THRESHOLD,
};
use std::cell::RefCell;

const SECOND: u64 = 1_000_000_000;

const PLAYING: SinkStatus = SinkStatus { empty: false, paused: false };
const PAUSED: SinkStatus = SinkStatus { empty: false, paused: true };
const DRAINED: SinkStatus = SinkStatus { empty: true, paused: false };

fn snapshot(has_track: bool, position: u64, was_playing: bool) -> Snapshot {
    Snapshot { has_track, position, was_playing }
}

/// Runs the work with steps that fail as `failing` says, and records them.
fn run(
    purpose: Purpose,
    snapshot: Snapshot,
    device_available: bool,
    failing: &[Step],
) -> (Result<bool, AppError>, Vec<Step>) {
    let steps = RefCell::new(Vec::new());
    let result = carry_out(purpose, snapshot, device_available, |step| {
        steps.borrow_mut().push(step);
        if failing.contains(&step) {
            Some(AppError::Decode(format!("{:?} failed", step)))
        } else {
            None
        }
    });
    (result, steps.into_inner())
}

fn detail(error: &AppError) -> (ErrorKind, String) {
    let text = match error {
        AppError::Audio(m)
        | AppError::Database(m)
        | AppError::Scanner(m)
        | AppError::Io(m)
        | AppError::Decode(m)
        | AppError::NotFound(m)
        | AppError::InvalidState(m)
        | AppError::Validation(m) => m.clone(),
    };
    (error.kind(), text)
}

#[test]
fn sink_status_tells_playing_and_finished() {
    assert!(PLAYING.is_playing());
    assert!(!PAUSED.is_playing());
    assert!(!DRAINED.is_playing());
    assert!(!SinkStatus { empty: true, paused: true }.is_playing());
    assert!(DRAINED.is_finished());
    assert!(!PLAYING.is_finished());
}

#[test]
fn reinit_is_needed_after_five_minutes() {
    assert_eq!(LONG_PAUSE_THRESHOLD, 5 * 60 * SECOND);
    assert!(!needs_reinit(false, 0, 0));
    assert!(!needs_reinit(false, LONG_PAUSE_THRESHOLD, LONG_PAUSE_THRESHOLD));
    assert!(needs_reinit(false, LONG_PAUSE_THRESHOLD + 1, 0));
    assert!(needs_reinit(false, 0, LONG_PAUSE_THRESHOLD + 1));
    assert!(needs_reinit(true, 0, 0));
}

#[test]
fn inactive_duration_is_the_longer_span() {
    assert_eq!(inactive_duration(3, 7), 7);
    assert_eq!(inactive_duration(9, 7), 9);
    assert_eq!(inactive_duration(0, 0), 0);
    assert_eq!(inactive_duration(u64::MAX, 1), u64::MAX);
}

#[test]
fn play_fails_without_a_device() {
    let error = decide_play(false, true, 0, 0, false, true).unwrap_err();
    assert_eq!(
        detail(&error),
        (
            ErrorKind::Audio,
            "No audio output device available. Please connect an audio device.".to_string()
        )
    );
}

#[test]
fn play_decides_what_to_repair() {
    let long = LONG_PAUSE_THRESHOLD + 1;
    assert_eq!(decide_play(true, false, 0, 0, false, true).unwrap(), PlayDecision::Resume);
    assert_eq!(decide_play(true, true, 0, 0, false, true).unwrap(), PlayDecision::Reinit);
    assert_eq!(decide_play(true, false, long, 0, false, true).unwrap(), PlayDecision::Reinit);
    assert_eq!(decide_play(true, false, 0, long, true, true).unwrap(), PlayDecision::Reinit);
    assert_eq!(decide_play(true, false, 0, 0, true, true).unwrap(), PlayDecision::Reload);
    assert_eq!(decide_play(true, false, 0, 0, true, false).unwrap(), PlayDecision::Resume);
}

#[test]
fn snapshot_captures_track_position_and_play_state() {
    let mut state = PlaybackState::new();
    assert_eq!(Snapshot::capture(&state, PAUSED, 5 * SECOND), snapshot(false, 0, false));

    state.reset_for_load("a.mp3".into(), 100 * SECOND);
    state.mark_playing_at(SECOND);
    assert_eq!(Snapshot::capture(&state, PLAYING, 5 * SECOND), snapshot(true, 4 * SECOND, true));
    assert_eq!(Snapshot::capture(&state, DRAINED, 5 * SECOND), snapshot(true, 100 * SECOND, false));
    assert_eq!(Snapshot::for_seek(&state, PAUSED, 9), snapshot(true, 9, false));
    assert_eq!(Snapshot::for_seek(&state, DRAINED, 9), snapshot(true, 9, true));
}

#[test]
fn reinit_opens_loads_and_restores() {
    let (result, steps) = run(Purpose::Reinit, snapshot(true, 7 * SECOND, true), true, &[]);
    assert_eq!(result.unwrap(), true);
    assert_eq!(steps, vec![Step::OpenOutput, Step::LoadTrack, Step::SeekTo(7 * SECOND)]);
}

#[test]
fn position_is_restored_only_beyond_half_a_second() {
    assert_eq!(RESTORE_THRESHOLD, SECOND / 2);
    for purpose in [Purpose::Reinit, Purpose::Reload, Purpose::Recover] {
        let (_, steps) = run(purpose, snapshot(true, RESTORE_THRESHOLD, false), true, &[]);
        assert!(!steps.contains(&Step::SeekTo(RESTORE_THRESHOLD)));
        let (_, steps) = run(purpose, snapshot(true, RESTORE_THRESHOLD + 1, false), true, &[]);
        assert_eq!(steps.last(), Some(&Step::SeekTo(RESTORE_THRESHOLD + 1)));
    }
    for purpose in [Purpose::SwitchDevice, Purpose::SeekFallback] {
        let (_, steps) = run(purpose, snapshot(true, 0, false), true, &[]);
        assert!(!steps.contains(&Step::SeekTo(0)));
        let (_, steps) = run(purpose, snapshot(true, 1, false), true, &[]);
        assert!(steps.contains(&Step::SeekTo(1)));
    }
}

#[test]
fn reinit_without_a_track_only_opens() {
    let (result, steps) = run(Purpose::Reinit, snapshot(false, 9 * SECOND, true), true, &[]);
    assert_eq!(result.unwrap(), true);
    assert_eq!(steps, vec![Step::OpenOutput]);
}

#[test]
fn reinit_fails_with_the_error_of_the_failed_step() {
    let (result, steps) =
        run(Purpose::Reinit, snapshot(true, 7 * SECOND, true), true, &[Step::OpenOutput]);
    assert_eq!(detail(&result.unwrap_err()), (ErrorKind::Decode, "OpenOutput failed".into()));
    assert_eq!(steps, vec![Step::OpenOutput]);

    let (result, steps) =
        run(Purpose::Reinit, snapshot(true, 7 * SECOND, true), true, &[Step::LoadTrack]);
    assert_eq!(detail(&result.unwrap_err()), (ErrorKind::Decode, "LoadTrack failed".into()));
    assert_eq!(steps, vec![Step::OpenOutput, Step::LoadTrack]);

    let (result, _) =
        run(Purpose::Reinit, snapshot(true, 7 * SECOND, true), true, &[Step::SeekTo(7 * SECOND)]);
    assert_eq!(result.unwrap(), true);
}

#[test]
fn reload_skips_the_device() {
    let (result, steps) = run(Purpose::Reload, snapshot(true, 3 * SECOND, true), true, &[]);
    assert_eq!(result.unwrap(), true);
    assert_eq!(steps, vec![Step::LoadTrack, Step::SeekTo(3 * SECOND)]);
}

#[test]
fn recover_without_a_device_gives_up_at_once() {
    let mut state = PlaybackState::new();
    state.reset_for_load("kept.mp3".into(), 100 * SECOND);
    state.mark_playing_at(0);
    let before = Snapshot::capture(&state, PLAYING, 40 * SECOND);

    assert_eq!(begin(Purpose::Recover, before, false).unwrap(), Step::Finish(false));
    let (result, steps) = run(Purpose::Recover, before, false, &[]);
    assert_eq!(result.unwrap(), false);
    assert!(steps.is_empty());

    assert_eq!(state.current_path.as_deref(), Some("kept.mp3"));
    assert_eq!(state.position_at(40 * SECOND, false, false), 40 * SECOND);
    assert_eq!(Snapshot::capture(&state, PLAYING, 40 * SECOND), before);
}

#[test]
fn recover_restores_track_position_and_playback() {
    let (result, steps) = run(Purpose::Recover, snapshot(true, 12 * SECOND, true), true, &[]);
    assert_eq!(result.unwrap(), true);
    assert_eq!(
        steps,
        vec![Step::OpenOutput, Step::LoadTrack, Step::SeekTo(12 * SECOND), Step::Resume]
    );

    let (result, steps) = run(Purpose::Recover, snapshot(true, 12 * SECOND, false), true, &[]);
    assert_eq!(result.unwrap(), true);
    assert_eq!(steps, vec![Step::OpenOutput, Step::LoadTrack, Step::SeekTo(12 * SECOND)]);
}

#[test]
fn recover_never_returns_an_error() {
    let all = [Step::OpenOutput, Step::LoadTrack, Step::SeekTo(12 * SECOND), Step::Resume];
    for mask in 0u32..16 {
        let failing: Vec<Step> =
            (0..4).filter(|bit| mask & (1 << bit) != 0).map(|bit| all[bit]).collect();
        for available in [true, false] {
            let (result, _) =
                run(Purpose::Recover, snapshot(true, 12 * SECOND, true), available, &failing);
            let expected = available
                && !failing.contains(&Step::OpenOutput)
                && !failing.contains(&Step::LoadTrack);
            assert_eq!(result.unwrap(), expected);
        }
    }
}

#[test]
fn recover_goes_on_after_a_failed_seek() {
    let (result, steps) = run(
        Purpose::Recover,
        snapshot(true, 12 * SECOND, true),
        true,
        &[Step::SeekTo(12 * SECOND), Step::Resume],
    );
    assert_eq!(result.unwrap(), true);
    assert_eq!(steps.last(), Some(&Step::Resume));
}

#[test]
fn switching_device_fails_on_any_failed_step() {
    let target = snapshot(true, 2 * SECOND, true);
    let (result, steps) = run(Purpose::SwitchDevice, target, true, &[]);
    assert_eq!(result.unwrap(), true);
    assert_eq!(
        steps,
        vec![Step::OpenOutput, Step::LoadTrack, Step::SeekTo(2 * SECOND), Step::Resume]
    );
    for failing in [Step::OpenOutput, Step::LoadTrack, Step::SeekTo(2 * SECOND), Step::Resume] {
        let (result, steps) = run(Purpose::SwitchDevice, target, true, &[failing]);
        assert_eq!(
            detail(&result.unwrap_err()),
            (ErrorKind::Decode, format!("{:?} failed", failing))
        );
        assert_eq!(steps.last(), Some(&failing));
    }
}

#[test]
fn seek_without_a_track_is_an_invalid_state() {
    let error = begin(Purpose::SeekFallback, snapshot(false, SECOND, false), true).unwrap_err();
    assert_eq!(detail(&error), (ErrorKind::InvalidState, "No file loaded for seeking".into()));
    let (result, steps) = run(Purpose::SeekFallback, snapshot(false, SECOND, false), true, &[]);
    assert_eq!(result.unwrap_err().kind(), ErrorKind::InvalidState);
    assert!(steps.is_empty());
}

#[test]
fn backward_seek_falls_back_to_reload() {
    // A track plays and has reached five seconds; the sink cannot seek back.
    let mut state = PlaybackState::new();
    state.reset_for_load("vbr.mp3".into(), 60 * SECOND);
    state.mark_playing_at(0);
    assert_eq!(state.position_at(5 * SECOND, false, false), 5 * SECOND);

    let target = SECOND;
    let plan = Snapshot::for_seek(&state, PLAYING, target);
    let (result, steps) = run(Purpose::SeekFallback, plan, true, &[]);
    assert_eq!(result.unwrap(), true);
    assert_eq!(steps, vec![Step::LoadTrack, Step::SeekTo(SECOND), Step::Resume]);

    state.mark_seeked_at(target, false, 5 * SECOND);
    assert_eq!(state.position_at(5 * SECOND, false, false), SECOND);
    assert_eq!(state.current_path.as_deref(), Some("vbr.mp3"));
    assert_eq!(state.total_duration, 60 * SECOND);
}

#[test]
fn seek_by_reload_keeps_a_paused_player_paused() {
    let (result, steps) = run(Purpose::SeekFallback, snapshot(true, 0, false), true, &[]);
    assert_eq!(result.unwrap(), true);
    assert_eq!(steps, vec![Step::LoadTrack, Step::Hold]);
}

#[test]
fn seek_by_reload_fails_only_if_the_track_cannot_be_decoded() {
    let plan = snapshot(true, 4 * SECOND, true);
    let (result, _) = run(Purpose::SeekFallback, plan, true, &[Step::LoadTrack]);
    assert_eq!(detail(&result.unwrap_err()), (ErrorKind::Decode, "LoadTrack failed".into()));
    let (result, steps) =
        run(Purpose::SeekFallback, plan, true, &[Step::SeekTo(4 * SECOND), Step::Resume]);
    assert_eq!(result.unwrap(), true);
    assert_eq!(steps, vec![Step::LoadTrack, Step::SeekTo(4 * SECOND), Step::Resume]);
}

#[test]
fn advance_names_one_step_at_a_time() {
    let plan = snapshot(true, 9 * SECOND, true);
    assert_eq!(begin(Purpose::Recover, plan, true).unwrap(), Step::OpenOutput);
    assert_eq!(advance(Purpose::Recover, plan, Stage::Opened, None).unwrap(), Step::LoadTrack);
    assert_eq!(
        advance(Purpose::Recover, plan, Stage::Loaded, None).unwrap(),
        Step::SeekTo(9 * SECOND)
    );
    assert_eq!(advance(Purpose::Recover, plan, Stage::Sought, None).unwrap(), Step::Resume);
    assert_eq!(advance(Purpose::Recover, plan, Stage::Resumed, None).unwrap(), Step::Finish(true));
    assert_eq!(
        advance(Purpose::Recover, plan, Stage::Opened, Some(AppError::Audio("gone".into())))
            .unwrap(),
        Step::Finish(false)
    );
    let error =
        advance(Purpose::Reinit, plan, Stage::Loaded, Some(AppError::NotFound("moved".into())))
            .unwrap_err();
    assert_eq!(detail(&error), (ErrorKind::NotFound, "moved".into()));
}

#[test]
fn stage_of_follows_the_step() {
    assert_eq!(stage_of(Step::OpenOutput), Some(Stage::Opened));
    assert_eq!(stage_of(Step::LoadTrack), Some(Stage::Loaded));
    assert_eq!(stage_of(Step::SeekTo(3)), Some(Stage::Sought));
    assert_eq!(stage_of(Step::Resume), Some(Stage::Resumed));
    assert_eq!(stage_of(Step::Hold), Some(Stage::Resumed));
    assert_eq!(stage_of(Step::Finish(true)), None);
}

#[test]
fn gapless_swap_continues_with_the_preloaded_track() {
    // Track A, ten seconds long, plays; track B waits.
    let mut state = PlaybackState::new();
    state.reset_for_load("a.flac".into(), 10 * SECOND);
    state.mark_playing_at(0);
    let mut preload: PreloadManager<&str> = PreloadManager::new();
    preload.set("sink of b", "b.flac".into());
    assert!(preload.has_preloaded());

    let (sink, path) = preload.take_for_swap().unwrap();
    state.mark_taken_over_at(path, 9 * SECOND);

    assert_eq!(sink, "sink of b");
    assert!(!preload.has_preloaded());
    assert_eq!(state.current_path.as_deref(), Some("b.flac"));
    assert_eq!(state.position_at(9 * SECOND, false, false), 0);
    assert!(PLAYING.is_playing());
    assert!(state.start_time.is_some() && state.pause_start.is_none());
}

#[test]
fn swap_without_a_preloaded_track_fails() {
    let mut preload: PreloadManager<u8> = PreloadManager::new();
    let error = preload.take_for_swap().unwrap_err();
    assert_eq!(detail(&error), (ErrorKind::Audio, "No preloaded track available".into()));
}

#[test]
fn preload_is_taken_whole_or_not_at_all() {
    let mut preload: PreloadManager<Vec<u8>> = PreloadManager::new();
    assert!(!preload.has_preloaded());
    assert!(preload.take().is_none());

    preload.set(vec![1], "one.mp3".into());
    preload.set(vec![2], "two.mp3".into());
    assert_eq!(preload.take(), Some((vec![2], "two.mp3".to_string())));
    assert!(preload.take().is_none());

    preload.set(vec![3], "three.mp3".into());
    preload.clear();
    assert!(!preload.has_preloaded());
    assert!(preload.take().is_none());
}

#[test]
fn errors_render_with_their_heading() {
    assert_eq!(AppError::Audio("a".into()).message(), "Audio error: a");
    assert_eq!(AppError::Database("b".into()).message(), "Database error: b");
    assert_eq!(AppError::Scanner("c".into()).message(), "Scanner error: c");
    assert_eq!(AppError::Io("d".into()).message(), "IO error: d");
    assert_eq!(AppError::Decode("e".into()).message(), "Decode error: e");
    assert_eq!(AppError::NotFound("f".into()).message(), "Not found: f");
    assert_eq!(AppError::InvalidState("g".into()).message(), "Invalid state: g");
    assert_eq!(AppError::Validation("h".into()).message(), "Validation error: h");
}

#[test]
fn errors_know_their_kind() {
    let kinds = [
        ErrorKind::Audio,
        ErrorKind::Database,
        ErrorKind::Scanner,
        ErrorKind::Io,
        ErrorKind::Decode,
        ErrorKind::NotFound,
        ErrorKind::InvalidState,
        ErrorKind::Validation,
    ];
    for kind in kinds {
        let error = AppError::of_kind(kind, "x".into());
        assert_eq!(detail(&error), (kind, "x".to_string()));
    }
}

#[test]
fn context_goes_before_the_rendered_error() {
    let failed: Result<u8, AppError> = Err(AppError::Decode("bad frame".into()));
    let error = failed.context("loading a.mp3").unwrap_err();
    assert_eq!(
        detail(&error),
        (ErrorKind::Decode, "loading a.mp3: Decode error: bad frame".to_string())
    );
    assert_eq!(error.message(), "Decode error: loading a.mp3: Decode error: bad frame");

    let fine: Result<u8, AppError> = Ok(7);
    assert_eq!(fine.context("anything").unwrap(), 7);

    let io: Result<u8, AppError> = Err(AppError::Io("disk".into()));
    assert_eq!(detail(&io.context("saving").unwrap_err()), (ErrorKind::Io, "disk".to_string()));
}
