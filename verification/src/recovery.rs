//! The decisions of the player around its output: when to rebuild it, and
//! how a rebuild, a reload or a seek by reload proceeds step by step.
//!
//! Opening a device, decoding a file and moving the output are done by the
//! caller. After each of them it reports how the step went and is told the
//! next one, until the work is finished.
use crate::error::{AppError, ErrorKind};
use crate::playback_state::{PlaybackState, Transport};
use vstd::prelude::*;
use vstd::string::*;

verus! {

/// A pause or an idle time longer than this (five minutes) makes the next
/// `play` rebuild the output first.
pub const LONG_PAUSE_THRESHOLD: u64 = 300_000_000_000;

/// After a rebuild the position is restored only if it lies beyond this
/// (half a second).
pub const RESTORE_THRESHOLD: u64 = 500_000_000;

/// What the output sink reports about itself.
#[derive(Debug, Clone, Copy, PartialEq, Eq, Structural)]
pub struct SinkStatus {
    pub empty: bool,
    pub paused: bool,
}

impl SinkStatus {
    pub open spec fn spec_is_playing(&self) -> bool {
        !self.paused && !self.empty
    }

    /// Sound is coming out: the sink is neither paused nor drained.
    #[verifier::when_used_as_spec(spec_is_playing)]
    pub fn is_playing(&self) -> (playing: bool)
        ensures
            playing == self.spec_is_playing(),
    {
        !self.paused && !self.empty
    }

    pub open spec fn spec_is_finished(&self) -> bool {
        self.empty
    }

    /// The track has played to its end.
    #[verifier::when_used_as_spec(spec_is_finished)]
    pub fn is_finished(&self) -> (finished: bool)
        ensures
            finished == self.spec_is_finished(),
    {
        self.empty
    }
}

pub open spec fn spec_needs_reinit(device_changed: bool, pause_length: u64, idle: u64) -> bool {
    device_changed || pause_length > LONG_PAUSE_THRESHOLD || idle > LONG_PAUSE_THRESHOLD
}

/// Whether the output should be rebuilt before it is used again: the default
/// device is another one than the one connected to, or the player has been
/// paused or idle for longer than `LONG_PAUSE_THRESHOLD`.
#[verifier::when_used_as_spec(spec_needs_reinit)]
pub fn needs_reinit(device_changed: bool, pause_length: u64, idle: u64) -> (needed: bool)
    ensures
        needed == spec_needs_reinit(device_changed, pause_length, idle),
{
    device_changed || pause_length > LONG_PAUSE_THRESHOLD || idle > LONG_PAUSE_THRESHOLD
}

/// For how long the player has done nothing: the longer of the running pause
/// and the time since the output was last used.
pub fn inactive_duration(pause_length: u64, idle: u64) -> (inactive: u64)
    ensures
        inactive >= pause_length,
        inactive >= idle,
        inactive == pause_length || inactive == idle,
{
    if pause_length >= idle {
        pause_length
    } else {
        idle
    }
}

/// What `play` does before it starts the output.
#[derive(Debug, Clone, Copy, PartialEq, Eq, Structural)]
pub enum PlayDecision {
    /// Tear the output down and build it anew, then reload the track.
    Reinit,
    /// The sink has emptied under a loaded track: reload the track.
    Reload,
    /// Nothing to repair.
    Resume,
}

pub open spec fn play_decision(
    device_changed: bool,
    pause_length: u64,
    idle: u64,
    sink_empty: bool,
    track_loaded: bool,
) -> PlayDecision {
    if spec_needs_reinit(device_changed, pause_length, idle) {
        PlayDecision::Reinit
    } else if sink_empty && track_loaded {
        PlayDecision::Reload
    } else {
        PlayDecision::Resume
    }
}

/// Decides what `play` has to repair first.
///
/// Fails with an `Audio` error exactly if no output device is available.
pub fn decide_play(
    device_available: bool,
    device_changed: bool,
    pause_length: u64,
    idle: u64,
    sink_empty: bool,
    track_loaded: bool,
) -> (decision: Result<PlayDecision, AppError>)
    ensures
        device_available ==> decision == Ok::<PlayDecision, AppError>(
            play_decision(device_changed, pause_length, idle, sink_empty, track_loaded),
        ),
        !device_available ==> decision is Err && decision->Err_0.spec_kind() == ErrorKind::Audio
            && decision->Err_0.detail()
            == "No audio output device available. Please connect an audio device."@,
{
    if !device_available {
        return Err(
            AppError::Audio(
                String::from_str(
                    "No audio output device available. Please connect an audio device.",
                ),
            ),
        );
    }
    if needs_reinit(device_changed, pause_length, idle) {
        Ok(PlayDecision::Reinit)
    } else if sink_empty && track_loaded {
        Ok(PlayDecision::Reload)
    } else {
        Ok(PlayDecision::Resume)
    }
}

/// Why the output is rebuilt or the track reloaded.
#[derive(Debug, Clone, Copy, PartialEq, Eq, Structural)]
pub enum Purpose {
    /// `play` found the device changed or the player idle for long.
    Reinit,
    /// `play` found the sink empty under a loaded track.
    Reload,
    /// The caller asked for a recovery.
    Recover,
    /// The caller chose another output device.
    SwitchDevice,
    /// A seek that the output could not do itself.
    SeekFallback,
}

/// What the player was doing before the work began.
#[derive(Debug, Clone, Copy, PartialEq, Eq, Structural)]
pub struct Snapshot {
    pub has_track: bool,
    /// The position to come back to; for a seek, the target.
    pub position: u64,
    pub was_playing: bool,
}

/// How far the work has come: the step that was tried last.
#[derive(Debug, Clone, Copy, PartialEq, Eq, Structural)]
pub enum Stage {
    Begin,
    Opened,
    Loaded,
    Sought,
    Resumed,
}

/// What the caller does next.
#[derive(Debug, Clone, Copy, PartialEq, Eq, Structural)]
pub enum Step {
    /// Open the default output device and attach a new sink, with the volume
    /// of the old one.
    OpenOutput,
    /// Decode the track from its start into the sink, paused.
    LoadTrack,
    /// Move the sink to this position.
    SeekTo(u64),
    /// Start the sink.
    Resume,
    /// Pause the sink.
    Hold,
    /// Stop: the work has succeeded (`true`) or was given up without being an
    /// error (`false`).
    Finish(bool),
}

/// How a failed step counts.
#[derive(Debug, Clone, Copy, PartialEq, Eq, Structural)]
pub enum Reaction {
    /// The whole operation fails with the step's error.
    Fail,
    /// The operation ends without success and without an error.
    GiveUp,
    /// The failure is noted and the work goes on.
    Ignore,
}

/// Why no next step is named.
#[derive(Debug, Clone, Copy, PartialEq, Eq, Structural)]
pub enum Refusal {
    /// The step that was tried failed, and its error is the operation's.
    StepFailed,
    /// A seek by reload with no track loaded.
    NothingLoaded,
}

impl Stage {
    /// The place of a stage in the order of the work.
    pub open spec fn rank(self) -> int {
        match self {
            Stage::Begin => 0,
            Stage::Opened => 1,
            Stage::Loaded => 2,
            Stage::Sought => 3,
            Stage::Resumed => 4,
        }
    }
}

impl Step {
    /// The stage that the work is at when this step has been tried; the end
    /// counts as one past the last.
    pub open spec fn rank(self) -> int {
        match self {
            Step::OpenOutput => 1,
            Step::LoadTrack => 2,
            Step::SeekTo(_) => 3,
            Step::Resume => 4,
            Step::Hold => 4,
            Step::Finish(_) => 5,
        }
    }
}

impl Purpose {
    /// Whether the output itself is torn down and built anew.
    pub open spec fn opens_output(self) -> bool {
        self == Purpose::Reinit || self == Purpose::Recover || self == Purpose::SwitchDevice
    }

    /// What a failure of the step that led to `stage` means.
    pub open spec fn reaction(self, stage: Stage) -> Reaction {
        match self {
            Purpose::SwitchDevice => Reaction::Fail,
            Purpose::Recover => match stage {
                Stage::Opened | Stage::Loaded => Reaction::GiveUp,
                _ => Reaction::Ignore,
            },
            Purpose::Reinit | Purpose::Reload | Purpose::SeekFallback => match stage {
                Stage::Opened | Stage::Loaded => Reaction::Fail,
                _ => Reaction::Ignore,
            },
        }
    }

    /// The position to move the reloaded track to, if any.
    pub open spec fn seek_target(self, snapshot: Snapshot) -> Option<u64> {
        let least: u64 = match self {
            Purpose::SwitchDevice | Purpose::SeekFallback => 0,
            _ => RESTORE_THRESHOLD,
        };
        if snapshot.position > least {
            Some(snapshot.position)
        } else {
            None
        }
    }

    /// How the sink is left once the track is back in place, if that is part
    /// of the work.
    pub open spec fn transport(self, snapshot: Snapshot) -> Option<Transport> {
        match self {
            Purpose::Reinit | Purpose::Reload => None,
            Purpose::Recover | Purpose::SwitchDevice => if snapshot.was_playing {
                Some(Transport::Play)
            } else {
                None
            },
            Purpose::SeekFallback => if snapshot.was_playing {
                Some(Transport::Play)
            } else {
                Some(Transport::Pause)
            },
        }
    }

    /// The first step that is due after `stage`, every step up to there
    /// having been tried or not being part of the work.
    pub open spec fn step_after(self, snapshot: Snapshot, stage: Stage) -> Result<Step, Refusal> {
        if stage == Stage::Begin && self.opens_output() {
            Ok(Step::OpenOutput)
        } else if stage.rank() <= 1 && !snapshot.has_track {
            if self == Purpose::SeekFallback {
                Err(Refusal::NothingLoaded)
            } else {
                Ok(Step::Finish(true))
            }
        } else if stage.rank() <= 1 {
            Ok(Step::LoadTrack)
        } else if stage.rank() <= 2 && self.seek_target(snapshot) is Some {
            Ok(Step::SeekTo(self.seek_target(snapshot)->0))
        } else if stage.rank() <= 3 && self.transport(snapshot) == Some(Transport::Play) {
            Ok(Step::Resume)
        } else if stage.rank() <= 3 && self.transport(snapshot) == Some(Transport::Pause) {
            Ok(Step::Hold)
        } else {
            Ok(Step::Finish(true))
        }
    }

    /// What follows when the step that led to `stage` has been tried and has
    /// failed or not.
    pub open spec fn step_on(self, snapshot: Snapshot, stage: Stage, failed: bool) -> Result<
        Step,
        Refusal,
    > {
        if failed && stage != Stage::Begin && self.reaction(stage) == Reaction::Fail {
            Err(Refusal::StepFailed)
        } else if failed && stage != Stage::Begin && self.reaction(stage) == Reaction::GiveUp {
            Ok(Step::Finish(false))
        } else {
            self.step_after(snapshot, stage)
        }
    }

    /// The first step of the work.
    ///
    /// A recovery is given up at once if there is no output device.
    pub open spec fn first_step(self, snapshot: Snapshot, device_available: bool) -> Result<
        Step,
        Refusal,
    > {
        if self == Purpose::Recover && !device_available {
            Ok(Step::Finish(false))
        } else {
            self.step_after(snapshot, Stage::Begin)
        }
    }
}

/// The detail of the error of a seek by reload with no track loaded.
pub open spec fn nothing_loaded_detail() -> Seq<char> {
    "No file loaded for seeking"@
}

/// `result` is what the caller gets for `planned`, `failure` being the error
/// of the step that was tried.
pub open spec fn carries_out(
    result: Result<Step, AppError>,
    planned: Result<Step, Refusal>,
    failure: Option<AppError>,
) -> bool {
    match planned {
        Ok(step) => result == Ok::<Step, AppError>(step),
        Err(Refusal::StepFailed) => failure is Some && result == Err::<Step, AppError>(failure->0),
        Err(Refusal::NothingLoaded) => result is Err && result->Err_0.spec_kind()
            == ErrorKind::InvalidState && result->Err_0.detail() == nothing_loaded_detail(),
    }
}

fn reaction_to(purpose: Purpose, stage: Stage) -> (reaction: Reaction)
    ensures
        reaction == purpose.reaction(stage),
{
    let early: bool = match stage {
        Stage::Opened | Stage::Loaded => true,
        _ => false,
    };
    match purpose {
        Purpose::SwitchDevice => Reaction::Fail,
        Purpose::Recover => if early {
            Reaction::GiveUp
        } else {
            Reaction::Ignore
        },
        _ => if early {
            Reaction::Fail
        } else {
            Reaction::Ignore
        },
    }
}

fn seek_target_of(purpose: Purpose, snapshot: Snapshot) -> (target: Option<u64>)
    ensures
        target == purpose.seek_target(snapshot),
{
    let least: u64 = match purpose {
        Purpose::SwitchDevice | Purpose::SeekFallback => 0,
        _ => RESTORE_THRESHOLD,
    };
    if snapshot.position > least {
        Some(snapshot.position)
    } else {
        None
    }
}

fn transport_of(purpose: Purpose, snapshot: Snapshot) -> (transport: Option<Transport>)
    ensures
        transport == purpose.transport(snapshot),
{
    match purpose {
        Purpose::Reinit | Purpose::Reload => None,
        Purpose::Recover | Purpose::SwitchDevice => if snapshot.was_playing {
            Some(Transport::Play)
        } else {
            None
        },
        Purpose::SeekFallback => if snapshot.was_playing {
            Some(Transport::Play)
        } else {
            Some(Transport::Pause)
        },
    }
}

fn rank_of(stage: Stage) -> (rank: u8)
    ensures
        rank == stage.rank(),
{
    match stage {
        Stage::Begin => 0,
        Stage::Opened => 1,
        Stage::Loaded => 2,
        Stage::Sought => 3,
        Stage::Resumed => 4,
    }
}

fn proceed(purpose: Purpose, snapshot: Snapshot, stage: Stage) -> (result: Result<Step, AppError>)
    ensures
        carries_out(result, purpose.step_after(snapshot, stage), None),
{
    let rank: u8 = rank_of(stage);
    let opens: bool = match purpose {
        Purpose::Reinit | Purpose::Recover | Purpose::SwitchDevice => true,
        _ => false,
    };
    if rank == 0 && opens {
        return Ok(Step::OpenOutput);
    }
    if rank <= 1 {
        if snapshot.has_track {
            return Ok(Step::LoadTrack);
        }
        return match purpose {
            Purpose::SeekFallback => Err(
                AppError::InvalidState(String::from_str("No file loaded for seeking")),
            ),
            _ => Ok(Step::Finish(true)),
        };
    }
    if rank <= 2 {
        match seek_target_of(purpose, snapshot) {
            Some(target) => {
                return Ok(Step::SeekTo(target));
            },
            None => {},
        }
    }
    if rank <= 3 {
        match transport_of(purpose, snapshot) {
            Some(Transport::Play) => {
                return Ok(Step::Resume);
            },
            Some(Transport::Pause) => {
                return Ok(Step::Hold);
            },
            None => {},
        }
    }
    Ok(Step::Finish(true))
}

/// Names the first step of the work.
///
/// Fails with `InvalidState` exactly if a seek by reload is asked for while
/// no track is loaded.
pub fn begin(purpose: Purpose, snapshot: Snapshot, device_available: bool) -> (result: Result<
    Step,
    AppError,
>)
    ensures
        carries_out(result, purpose.first_step(snapshot, device_available), None),
{
    match purpose {
        Purpose::Recover => {
            if !device_available {
                return Ok(Step::Finish(false));
            }
        },
        _ => {},
    }
    proceed(purpose, snapshot, Stage::Begin)
}

/// Names the step that follows the one that led to `stage`.
///
/// `failure` is the error of that step if it failed. Where the failure ends
/// the operation as an error, that error is returned unchanged.
pub fn advance(purpose: Purpose, snapshot: Snapshot, stage: Stage, failure: Option<AppError>) -> (result:
    Result<Step, AppError>)
    ensures
        carries_out(result, purpose.step_on(snapshot, stage, failure is Some), failure),
{
    match failure {
        Some(error) => {
            let begun: bool = match stage {
                Stage::Begin => false,
                _ => true,
            };
            if begun {
                match reaction_to(purpose, stage) {
                    Reaction::Fail => {
                        return Err(error);
                    },
                    Reaction::GiveUp => {
                        return Ok(Step::Finish(false));
                    },
                    Reaction::Ignore => {},
                }
            }
            proceed(purpose, snapshot, stage)
        },
        None => proceed(purpose, snapshot, stage),
    }
}

/// The stage that the work is at once `step` has been tried.
pub fn stage_of(step: Step) -> (stage: Option<Stage>)
    ensures
        step is Finish <==> stage is None,
        stage matches Some(s) ==> s == step.stage(),
{
    match step {
        Step::OpenOutput => Some(Stage::Opened),
        Step::LoadTrack => Some(Stage::Loaded),
        Step::SeekTo(_) => Some(Stage::Sought),
        Step::Resume => Some(Stage::Resumed),
        Step::Hold => Some(Stage::Resumed),
        Step::Finish(_) => None,
    }
}

impl Snapshot {
    /// What has to be restored after the output is rebuilt: whether a track
    /// is loaded, where it stands at `now`, and whether it sounds.
    pub fn capture(state: &PlaybackState, sink: SinkStatus, now: u64) -> (snapshot: Snapshot)
        ensures
            snapshot == (Snapshot {
                has_track: state@.path is Some,
                position: state@.position(now, sink.empty, sink.paused) as u64,
                was_playing: sink.is_playing(),
            }),
    {
        Snapshot {
            has_track: state.current_path.is_some(),
            position: state.position_at(now, sink.empty, sink.paused),
            was_playing: sink.is_playing(),
        }
    }

    /// What a seek to `target` by reload has to bring about: the track at
    /// `target`, playing unless the sink was paused.
    pub fn for_seek(state: &PlaybackState, sink: SinkStatus, target: u64) -> (snapshot: Snapshot)
        ensures
            snapshot == (Snapshot {
                has_track: state@.path is Some,
                position: target,
                was_playing: !sink.paused,
            }),
    {
        Snapshot {
            has_track: state.current_path.is_some(),
            position: target,
            was_playing: !sink.paused,
        }
    }
}

/// Every step lies later in the order of the work than the stage it follows,
/// so the work ends after at most five steps.
pub proof fn law_work_advances(purpose: Purpose, snapshot: Snapshot, stage: Stage, failed: bool)
    ensures
        purpose.step_on(snapshot, stage, failed) matches Ok(step) ==> step.rank() > stage.rank(),
{
}

/// A recovery never ends in an error, and without an output device it ends
/// at once, unsuccessful, before anything is touched.
pub proof fn law_recover_never_fails(
    snapshot: Snapshot,
    stage: Stage,
    failed: bool,
    device_available: bool,
)
    ensures
        Purpose::Recover.step_on(snapshot, stage, failed) is Ok,
        Purpose::Recover.first_step(snapshot, device_available) is Ok,
        !device_available ==> Purpose::Recover.first_step(snapshot, device_available) == Ok::<
            Step,
            Refusal,
        >(Step::Finish(false)),
{
}

/// With no track loaded nothing is decoded, sought or started.
pub proof fn law_no_track_no_reload(purpose: Purpose, snapshot: Snapshot, stage: Stage, failed: bool)
    requires
        !snapshot.has_track,
        stage.rank() <= 1,
    ensures
        purpose.step_on(snapshot, stage, failed) matches Ok(step) ==> step is OpenOutput
            || step is Finish,
{
}

/// Only the failure of a step ends the work as that step's error, and a seek
/// by reload is refused only for want of a track.
pub proof fn law_errors_have_causes(purpose: Purpose, snapshot: Snapshot, stage: Stage, failed: bool)
    ensures
        purpose.step_on(snapshot, stage, failed) == Err::<Step, Refusal>(Refusal::StepFailed)
            ==> failed,
        purpose.step_on(snapshot, stage, failed) == Err::<Step, Refusal>(Refusal::NothingLoaded)
            ==> purpose == Purpose::SeekFallback && !snapshot.has_track,
{
}

impl Step {
    /// The stage that the work is at once this step has been tried.
    pub open spec fn stage(self) -> Stage {
        match self {
            Step::OpenOutput => Stage::Opened,
            Step::LoadTrack => Stage::Loaded,
            Step::SeekTo(_) => Stage::Sought,
            _ => Stage::Resumed,
        }
    }
}

/// How the work ends from `stage` on, if the step that led there failed or
/// not as `failed` says and each later step fails exactly if `fails` says so
/// of its stage.
pub open spec fn ending(
    purpose: Purpose,
    snapshot: Snapshot,
    stage: Stage,
    failed: bool,
    fails: spec_fn(Stage) -> bool,
) -> Result<bool, Refusal>
    decreases 5 - stage.rank(),
{
    match purpose.step_on(snapshot, stage, failed) {
        Err(refusal) => Err(refusal),
        Ok(Step::Finish(done)) => Ok(done),
        Ok(step) => ending(purpose, snapshot, step.stage(), fails(step.stage()), fails),
    }
}

/// How the whole work ends, from its first step on.
pub open spec fn outcome(
    purpose: Purpose,
    snapshot: Snapshot,
    device_available: bool,
    fails: spec_fn(Stage) -> bool,
) -> Result<bool, Refusal> {
    match purpose.first_step(snapshot, device_available) {
        Err(refusal) => Err(refusal),
        Ok(Step::Finish(done)) => Ok(done),
        Ok(step) => ending(purpose, snapshot, step.stage(), fails(step.stage()), fails),
    }
}

/// A recovery succeeds exactly if there is a device, the output can be
/// opened, and the track, if one is loaded, can be decoded again. That the
/// position cannot be restored or playback not resumed does not count.
pub proof fn law_recover_outcome(
    snapshot: Snapshot,
    device_available: bool,
    fails: spec_fn(Stage) -> bool,
)
    ensures
        outcome(Purpose::Recover, snapshot, device_available, fails) == Ok::<bool, Refusal>(
            device_available && !fails(Stage::Opened) && (snapshot.has_track ==> !fails(
                Stage::Loaded,
            )),
        ),
{
    reveal_with_fuel(ending, 5);
}

/// The rebuild before `play` succeeds exactly if the output can be opened
/// and the track, if one is loaded, can be decoded again; otherwise the
/// error of the step that failed is the error of `play`.
pub proof fn law_reinit_outcome(
    snapshot: Snapshot,
    device_available: bool,
    fails: spec_fn(Stage) -> bool,
)
    ensures
        outcome(Purpose::Reinit, snapshot, device_available, fails) == if !fails(Stage::Opened) && (
        snapshot.has_track ==> !fails(Stage::Loaded)) {
            Ok::<bool, Refusal>(true)
        } else {
            Err::<bool, Refusal>(Refusal::StepFailed)
        },
{
    reveal_with_fuel(ending, 5);
}

/// A change of device succeeds exactly if every step that it takes does.
pub proof fn law_switch_outcome(
    snapshot: Snapshot,
    device_available: bool,
    fails: spec_fn(Stage) -> bool,
)
    ensures
        outcome(Purpose::SwitchDevice, snapshot, device_available, fails) == if !fails(
            Stage::Opened,
        ) && (snapshot.has_track ==> !fails(Stage::Loaded) && (snapshot.position > 0 ==> !fails(
            Stage::Sought,
        )) && (snapshot.was_playing ==> !fails(Stage::Resumed))) {
            Ok::<bool, Refusal>(true)
        } else {
            Err::<bool, Refusal>(Refusal::StepFailed)
        },
{
    reveal_with_fuel(ending, 5);
}

/// A seek by reload fails only for want of a track or because the track
/// cannot be decoded again; that the reloaded track cannot be moved to the
/// target does not make the seek fail.
pub proof fn law_seek_fallback_outcome(
    snapshot: Snapshot,
    device_available: bool,
    fails: spec_fn(Stage) -> bool,
)
    ensures
        outcome(Purpose::SeekFallback, snapshot, device_available, fails) == if !snapshot.has_track {
            Err::<bool, Refusal>(Refusal::NothingLoaded)
        } else if fails(Stage::Loaded) {
            Err::<bool, Refusal>(Refusal::StepFailed)
        } else {
            Ok::<bool, Refusal>(true)
        },
{
    reveal_with_fuel(ending, 5);
}

/// One step of the work as it was carried out: the step and the error that
/// it failed with, if it failed.
pub struct Attempt {
    pub step: Step,
    pub failure: Option<AppError>,
}

/// What is due after the attempts in `log` have been made, in that order.
pub open spec fn due_after(
    purpose: Purpose,
    snapshot: Snapshot,
    device_available: bool,
    log: Seq<Attempt>,
) -> Result<Step, Refusal> {
    if log.len() == 0 {
        purpose.first_step(snapshot, device_available)
    } else {
        purpose.step_on(snapshot, log.last().step.stage(), log.last().failure is Some)
    }
}

/// The step of attempt `i` of `log` was not the end of the work, and it
/// was the step due when it was made.
pub open spec fn was_due(
    purpose: Purpose,
    snapshot: Snapshot,
    device_available: bool,
    log: Seq<Attempt>,
    i: int,
) -> bool {
    &&& !(log[i].step is Finish)
    &&& Ok::<Step, Refusal>(log[i].step) == if i == 0 {
        purpose.first_step(snapshot, device_available)
    } else {
        purpose.step_on(snapshot, log[i - 1].step.stage(), log[i - 1].failure is Some)
    }
}

/// Each step of `log` was the one due when it was made.
pub open spec fn steps_due(
    purpose: Purpose,
    snapshot: Snapshot,
    device_available: bool,
    log: Seq<Attempt>,
) -> bool {
    forall|i: int|
        0 <= i < log.len() ==> #[trigger] was_due(purpose, snapshot, device_available, log, i)
}

/// `log` is a run of the work: each step was the one due, and its failure is
/// one that `perform` can answer that step with.
pub open spec fn is_run<F: Fn(Step) -> Option<AppError>>(
    purpose: Purpose,
    snapshot: Snapshot,
    device_available: bool,
    perform: F,
    log: Seq<Attempt>,
) -> bool {
    &&& steps_due(purpose, snapshot, device_available, log)
    &&& forall|i: int|
        0 <= i < log.len() ==> call_ensures(perform, ((#[trigger] log[i]).step,), log[i].failure)
}

/// `result` is how the run `log` ends: with the success that the last step
/// leads to, with the error of the step that made the work fail, or with
/// `InvalidState` for a seek by reload without a track.
pub open spec fn ends_run(
    purpose: Purpose,
    snapshot: Snapshot,
    device_available: bool,
    log: Seq<Attempt>,
    result: Result<bool, AppError>,
) -> bool {
    match due_after(purpose, snapshot, device_available, log) {
        Ok(Step::Finish(done)) => result == Ok::<bool, AppError>(done),
        Ok(_) => false,
        Err(Refusal::StepFailed) => log.len() > 0 && log.last().failure is Some && result == Err::<
            bool,
            AppError,
        >(log.last().failure->0),
        Err(Refusal::NothingLoaded) => result is Err && result->Err_0.spec_kind()
            == ErrorKind::InvalidState && result->Err_0.detail() == nothing_loaded_detail(),
    }
}

/// Carries the work out from its first step to its end.
///
/// `perform` does one step and answers with the error if the step failed.
/// The result is `Ok(true)` if the work succeeded, `Ok(false)` if it was
/// given up, and the error that ended it otherwise.
pub fn carry_out<F: Fn(Step) -> Option<AppError>>(
    purpose: Purpose,
    snapshot: Snapshot,
    device_available: bool,
    perform: F,
) -> (result: Result<bool, AppError>)
    requires
        forall|step: Step| !(step is Finish) ==> call_requires(perform, (step,)),
    ensures
        exists|log: Seq<Attempt>|
            #[trigger] is_run(purpose, snapshot, device_available, perform, log) && ends_run(
                purpose,
                snapshot,
                device_available,
                log,
                result,
            ),
{
    let ghost mut log: Seq<Attempt> = Seq::empty();
    let mut next: Result<Step, AppError> = begin(purpose, snapshot, device_available);
    let ghost mut failure: Option<AppError> = None;
    loop
        invariant
            forall|step: Step| !(step is Finish) ==> call_requires(perform, (step,)),
            is_run(purpose, snapshot, device_available, perform, log),
            carries_out(next, due_after(purpose, snapshot, device_available, log), failure),
            log.len() > 0 ==> failure == log.last().failure,
            log.len() == 0 ==> failure is None,
            due_after(purpose, snapshot, device_available, log) matches Ok(step) ==> step.rank() > (
            if log.len() == 0 {
                0
            } else {
                log.last().step.rank()
            }),
        decreases
                5 - (if log.len() == 0 {
                    0
                } else {
                    log.last().step.rank()
                }),
    {
        match next {
            Err(error) => {
                return Err(error);
            },
            Ok(Step::Finish(done)) => {
                return Ok(done);
            },
            Ok(step) => {
                let answer: Option<AppError> = perform(step);
                let stage: Stage = match step {
                    Step::OpenOutput => Stage::Opened,
                    Step::LoadTrack => Stage::Loaded,
                    Step::SeekTo(_) => Stage::Sought,
                    _ => Stage::Resumed,
                };
                proof {
                    let longer = log.push(Attempt { step, failure: answer });
                    assert forall|i: int| 0 <= i < longer.len() implies #[trigger] was_due(
                        purpose,
                        snapshot,
                        device_available,
                        longer,
                        i,
                    ) by {
                        if i < log.len() {
                            assert(was_due(purpose, snapshot, device_available, log, i));
                        }
                    }
                    log = longer;
                    failure = answer;
                }
                next = advance(purpose, snapshot, stage, answer);
            },
        }
    }
}

/// The stages whose step failed in the run `log`.
pub open spec fn failed_stages(log: Seq<Attempt>) -> spec_fn(Stage) -> bool {
    |stage: Stage|
        exists|i: int|
            0 <= i < log.len() && (#[trigger] log[i]).step.stage() == stage && log[i].failure is Some
}

/// How a run ends whose last step has been made: what is due then, as a
/// result.
pub open spec fn run_end(
    purpose: Purpose,
    snapshot: Snapshot,
    device_available: bool,
    log: Seq<Attempt>,
) -> Result<bool, Refusal> {
    match due_after(purpose, snapshot, device_available, log) {
        Ok(Step::Finish(done)) => Ok(done),
        Ok(_) => Ok(false),
        Err(refusal) => Err(refusal),
    }
}

proof fn lemma_steps_ascend(
    purpose: Purpose,
    snapshot: Snapshot,
    device_available: bool,
    log: Seq<Attempt>,
    i: int,
    j: int,
)
    requires
        steps_due(purpose, snapshot, device_available, log),
        0 <= i < j < log.len(),
    ensures
        log[i].step.rank() < log[j].step.rank(),
    decreases j - i,
{
    assert(was_due(purpose, snapshot, device_available, log, j));
    assert(was_due(purpose, snapshot, device_available, log, j - 1));
    law_work_advances(purpose, snapshot, log[j - 1].step.stage(), log[j - 1].failure is Some);
    if i < j - 1 {
        lemma_steps_ascend(purpose, snapshot, device_available, log, i, j - 1);
    }
}

proof fn lemma_failed_stage(
    purpose: Purpose,
    snapshot: Snapshot,
    device_available: bool,
    log: Seq<Attempt>,
    k: int,
)
    requires
        steps_due(purpose, snapshot, device_available, log),
        0 <= k < log.len(),
    ensures
        failed_stages(log)(log[k].step.stage()) == (log[k].failure is Some),
{
    let stage = log[k].step.stage();
    assert(was_due(purpose, snapshot, device_available, log, k));
    if failed_stages(log)(stage) {
        let i = choose|i: int|
            0 <= i < log.len() && (#[trigger] log[i]).step.stage() == stage && log[i].failure is Some;
        assert(was_due(purpose, snapshot, device_available, log, i));
        assert(log[i].step.rank() == log[k].step.rank());
        if i < k {
            lemma_steps_ascend(purpose, snapshot, device_available, log, i, k);
        } else if k < i {
            lemma_steps_ascend(purpose, snapshot, device_available, log, k, i);
        }
    }
    if log[k].failure is Some {
        assert(log[k].step.stage() == stage && log[k].failure is Some);
    }
}

proof fn lemma_run_from(
    purpose: Purpose,
    snapshot: Snapshot,
    device_available: bool,
    log: Seq<Attempt>,
    k: int,
)
    requires
        steps_due(purpose, snapshot, device_available, log),
        0 <= k < log.len(),
        !(due_after(purpose, snapshot, device_available, log) matches Ok(step) && !(step is Finish)),
    ensures
        ending(
            purpose,
            snapshot,
            log[k].step.stage(),
            log[k].failure is Some,
            failed_stages(log),
        ) == run_end(purpose, snapshot, device_available, log),
    decreases log.len() - k,
{
    law_work_advances(purpose, snapshot, log[k].step.stage(), log[k].failure is Some);
    assert(was_due(purpose, snapshot, device_available, log, k));
    if k + 1 == log.len() {
        assert(log.last() == log[k]);
    } else {
        assert(was_due(purpose, snapshot, device_available, log, k + 1));
        lemma_failed_stage(purpose, snapshot, device_available, log, k + 1);
        lemma_run_from(purpose, snapshot, device_available, log, k + 1);
    }
}

/// A run that has come to its end ends as the work does when exactly the
/// steps that failed in the run fail.
pub proof fn law_run_ends_as_outcome(
    purpose: Purpose,
    snapshot: Snapshot,
    device_available: bool,
    log: Seq<Attempt>,
)
    requires
        steps_due(purpose, snapshot, device_available, log),
        !(due_after(purpose, snapshot, device_available, log) matches Ok(step) && !(step is Finish)),
    ensures
        outcome(purpose, snapshot, device_available, failed_stages(log)) == run_end(
            purpose,
            snapshot,
            device_available,
            log,
        ),
{
    if log.len() > 0 {
        assert(was_due(purpose, snapshot, device_available, log, 0));
        lemma_failed_stage(purpose, snapshot, device_available, log, 0);
        lemma_run_from(purpose, snapshot, device_available, log, 0);
    }
}

} // verus!
