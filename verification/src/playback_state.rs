//! Position and timing of the current track.
//!
//! A `PlaybackState` remembers when playback started, how far a seek has
//! moved it and how long it has been paused. From these and a clock reading
//! it computes the position, which never leaves `[0, total_duration]`.
//!
//! The four states of a track are combinations of fields:
//!
//! | state          | `current_path` | `start_time` | `pause_start` |
//! |----------------|----------------|--------------|---------------|
//! | empty          | `None`         |              |               |
//! | loaded-stopped | `Some`         | `None`       |               |
//! | playing        | `Some`         | `Some`       | `None`        |
//! | paused         | `Some`         | `Some`       | `Some`        |
use crate::clock::Clock;
use vstd::prelude::*;

verus! {

/// What a `PlaybackState` holds, as mathematics: the view of the type.
pub struct Timeline {
    pub path: Option<Seq<char>>,
    pub start: Option<u64>,
    pub seek_offset: u64,
    pub pause_start: Option<u64>,
    pub paused: u64,
    pub total: u64,
}

/// Time from `earlier` to `later`, zero if `later` is not later.
pub open spec fn gap(later: u64, earlier: u64) -> int {
    if later >= earlier {
        later - earlier
    } else {
        0
    }
}

/// `x` cut to what a stored span can hold.
pub open spec fn clip(x: int) -> u64 {
    if x <= 0 {
        0
    } else if x >= u64::MAX {
        u64::MAX
    } else {
        x as u64
    }
}

/// The view of an optional path.
pub open spec fn path_view(path: Option<String>) -> Option<Seq<char>> {
    match path {
        Some(p) => Some(p@),
        None => None,
    }
}

impl Timeline {
    /// Nothing loaded, nothing known.
    pub open spec fn empty() -> Timeline {
        Timeline { path: None, start: None, seek_offset: 0, pause_start: None, paused: 0, total: 0 }
    }

    /// A track of length `total` that has just been loaded.
    pub open spec fn loaded(path: Seq<char>, total: u64) -> Timeline {
        Timeline {
            path: Some(path),
            start: None,
            seek_offset: 0,
            pause_start: None,
            paused: 0,
            total,
        }
    }

    /// After a stop. The last known track length stays.
    pub open spec fn cleared(self) -> Timeline {
        Timeline {
            path: None,
            start: None,
            seek_offset: 0,
            pause_start: None,
            paused: 0,
            total: self.total,
        }
    }

    /// The length of the pause that a resume at `now` ends, if there is one.
    pub open spec fn pause_ended(self, now: u64) -> Option<u64> {
        match self.pause_start {
            Some(since) => Some(clip(gap(now, since))),
            None => None,
        }
    }

    /// After playback starts or resumes at `now`.
    ///
    /// A pause that was running is closed and added to the paused time;
    /// otherwise this is a fresh start and `now` becomes the anchor.
    pub open spec fn played(self, now: u64) -> Timeline {
        match self.pause_start {
            Some(since) => Timeline {
                pause_start: None,
                paused: clip(self.paused + gap(now, since)),
                ..self
            },
            None => Timeline { start: Some(now), ..self },
        }
    }

    /// After a pause at `now`.
    pub open spec fn paused_at(self, now: u64) -> Timeline {
        Timeline { pause_start: Some(now), ..self }
    }

    /// After a seek to `position` at `now`, with the output paused or not.
    pub open spec fn sought(self, position: u64, is_paused: bool, now: u64) -> Timeline {
        Timeline {
            start: Some(now),
            seek_offset: position,
            paused: 0,
            pause_start: if is_paused {
                Some(now)
            } else {
                None
            },
            ..self
        }
    }

    /// After the track at `path` has taken over at `now`, already playing.
    pub open spec fn taken_over(self, path: Seq<char>, now: u64) -> Timeline {
        Timeline {
            path: Some(path),
            start: Some(now),
            seek_offset: 0,
            pause_start: None,
            paused: 0,
            total: self.total,
        }
    }

    /// How long the running pause has lasted at `now`; zero if none runs.
    pub open spec fn pause_length(self, now: u64) -> int {
        match self.pause_start {
            Some(since) => gap(now, since),
            None => 0,
        }
    }

    /// The time that counts as played at `now`, given an anchor `start`.
    pub open spec fn played_time(self, start: u64, now: u64, sink_paused: bool) -> int {
        let held = if sink_paused {
            self.pause_length(now)
        } else {
            0
        };
        let counted = gap(now, start) - (self.paused + held);
        if counted >= 0 {
            counted
        } else {
            0
        }
    }

    /// The playback position at `now`.
    ///
    /// `sink_empty` says that the output has drained, `sink_paused` that it
    /// is paused.
    pub open spec fn position(self, now: u64, sink_empty: bool, sink_paused: bool) -> int {
        match self.start {
            None => 0,
            Some(start) => if sink_empty {
                self.total as int
            } else {
                let reached = self.seek_offset + self.played_time(start, now, sink_paused);
                if reached >= self.total {
                    self.total as int
                } else {
                    reached
                }
            },
        }
    }

    pub open spec fn is_empty(self) -> bool {
        self.path is None
    }

    pub open spec fn is_stopped(self) -> bool {
        self.path is Some && self.start is None
    }

    pub open spec fn is_playing(self) -> bool {
        self.path is Some && self.start is Some && self.pause_start is None
    }

    pub open spec fn is_paused(self) -> bool {
        self.path is Some && self.start is Some && self.pause_start is Some
    }
}

/// Tracks playback position, pause state and timing.
///
/// Spans are nanoseconds; points in time are readings of the state's own
/// clock, which starts when the state is made.
pub struct PlaybackState {
    pub current_path: Option<String>,
    /// When playback began, or when the last seek landed.
    pub start_time: Option<u64>,
    /// The position that the last seek moved to.
    pub seek_offset: u64,
    /// When the running pause began.
    pub pause_start: Option<u64>,
    /// The sum of all pauses that have ended since `start_time`.
    pub paused_duration: u64,
    pub total_duration: u64,
    /// The clock that `start_time` and `pause_start` were read from.
    pub clock: Clock,
}

impl View for PlaybackState {
    type V = Timeline;

    open spec fn view(&self) -> Timeline {
        Timeline {
            path: path_view(self.current_path),
            start: self.start_time,
            seek_offset: self.seek_offset,
            pause_start: self.pause_start,
            paused: self.paused_duration,
            total: self.total_duration,
        }
    }
}

/// `later - earlier`, or zero.
fn span_between(later: u64, earlier: u64) -> (d: u64)
    ensures
        d == gap(later, earlier),
{
    if later >= earlier {
        later - earlier
    } else {
        0
    }
}

impl PlaybackState {
    pub fn new() -> (state: PlaybackState)
        ensures
            state@ == Timeline::empty(),
    {
        PlaybackState {
            current_path: None,
            start_time: None,
            seek_offset: 0,
            pause_start: None,
            paused_duration: 0,
            total_duration: 0,
            clock: Clock::new(),
        }
    }

    /// The current reading of this state's clock.
    pub fn now(&self) -> u64 {
        self.clock.now()
    }

    /// Resets all timing for a newly loaded track of length `duration`.
    pub fn reset_for_load(&mut self, path: String, duration: u64)
        ensures
            final(self)@ == Timeline::loaded(path@, duration),
    {
        self.current_path = Some(path);
        self.total_duration = duration;
        self.start_time = None;
        self.seek_offset = 0;
        self.paused_duration = 0;
        self.pause_start = None;
    }

    /// Marks playback as started or resumed at `now`.
    ///
    /// Returns the length of the pause that ended, `None` on a fresh start.
    pub fn mark_playing_at(&mut self, now: u64) -> (resumed: Option<u64>)
        ensures
            final(self)@ == old(self)@.played(now),
            resumed == old(self)@.pause_ended(now),
    {
        match self.pause_start {
            Some(since) => {
                let pause: u64 = span_between(now, since);
                self.pause_start = None;
                self.paused_duration = self.paused_duration.saturating_add(pause);
                Some(pause)
            },
            None => {
                self.start_time = Some(now);
                None
            },
        }
    }

    /// Marks playback as started or resumed now.
    pub fn mark_playing(&mut self) -> (resumed: Option<u64>)
        ensures
            exists|now: u64|
                final(self)@ == #[trigger] old(self)@.played(now) && resumed == old(self)@.pause_ended(
                    now,
                ),
            resumed is Some <==> old(self)@.pause_start is Some,
            final(self)@.pause_start is None,
            old(self)@.pause_start is None ==> final(self)@.start is Some,
    {
        let now = self.clock.now();
        self.mark_playing_at(now)
    }

    /// Marks playback as paused at `now`.
    pub fn mark_paused_at(&mut self, now: u64)
        ensures
            final(self)@ == old(self)@.paused_at(now),
    {
        self.pause_start = Some(now);
    }

    /// Marks playback as paused now.
    pub fn mark_paused(&mut self)
        ensures
            exists|now: u64| final(self)@ == #[trigger] old(self)@.paused_at(now),
            final(self)@.pause_start is Some,
    {
        let now = self.clock.now();
        self.mark_paused_at(now)
    }

    /// Forgets the track: the state of a stopped player.
    pub fn clear(&mut self)
        ensures
            final(self)@ == old(self)@.cleared(),
    {
        self.current_path = None;
        self.start_time = None;
        self.seek_offset = 0;
        self.paused_duration = 0;
        self.pause_start = None;
    }

    /// Records at `now` that a seek has landed on `position`.
    pub fn mark_seeked_at(&mut self, position: u64, is_paused: bool, now: u64)
        ensures
            final(self)@ == old(self)@.sought(position, is_paused, now),
    {
        self.start_time = Some(now);
        self.seek_offset = position;
        self.paused_duration = 0;
        self.pause_start = if is_paused {
            Some(now)
        } else {
            None
        };
    }

    /// Records that a seek has landed on `position`.
    pub fn mark_seeked(&mut self, position: u64, is_paused: bool)
        ensures
            exists|now: u64| final(self)@ == #[trigger] old(self)@.sought(position, is_paused, now),
            final(self)@.seek_offset == position,
            final(self)@.paused == 0,
            final(self)@.start is Some,
            final(self)@.pause_start is Some <==> is_paused,
    {
        let now = self.clock.now();
        self.mark_seeked_at(position, is_paused, now)
    }

    /// Records at `now` that the track at `path` has taken over and plays.
    pub fn mark_taken_over_at(&mut self, path: String, now: u64)
        ensures
            final(self)@ == old(self)@.taken_over(path@, now),
    {
        self.current_path = Some(path);
        self.start_time = Some(now);
        self.seek_offset = 0;
        self.paused_duration = 0;
        self.pause_start = None;
    }

    /// Records that the track at `path` has taken over and plays.
    pub fn mark_taken_over(&mut self, path: String)
        ensures
            exists|now: u64| final(self)@ == #[trigger] old(self)@.taken_over(path@, now),
            final(self)@.path == Some(path@),
            final(self)@.is_playing(),
    {
        let now = self.clock.now();
        self.mark_taken_over_at(path, now)
    }

    /// The playback position at `now`.
    pub fn position_at(&self, now: u64, sink_empty: bool, sink_paused: bool) -> (position: u64)
        ensures
            position == self@.position(now, sink_empty, sink_paused),
    {
        match self.start_time {
            None => 0,
            Some(start) => {
                if sink_empty {
                    return self.total_duration;
                }
                let elapsed: u64 = span_between(now, start);
                let held: u64 = if sink_paused {
                    self.pause_length_at(now)
                } else {
                    0
                };
                let excluded: u128 = self.paused_duration as u128 + held as u128;
                let counted: u128 = if elapsed as u128 >= excluded {
                    elapsed as u128 - excluded
                } else {
                    0
                };
                let reached: u128 = self.seek_offset as u128 + counted;
                if reached >= self.total_duration as u128 {
                    self.total_duration
                } else {
                    reached as u64
                }
            },
        }
    }

    /// The playback position now.
    ///
    /// The caller passes what the output sink reports.
    pub fn get_position(&self, sink_empty: bool, sink_paused: bool) -> (position: u64)
        ensures
            exists|now: u64| position == #[trigger] self@.position(now, sink_empty, sink_paused),
            position <= self.total_duration,
            self.start_time is None ==> position == 0,
            self.start_time is Some && sink_empty ==> position == self.total_duration,
    {
        let now = self.clock.now();
        self.position_at(now, sink_empty, sink_paused)
    }

    /// How long the running pause has lasted at `now`; zero if none runs.
    pub fn pause_length_at(&self, now: u64) -> (length: u64)
        ensures
            length == self@.pause_length(now),
    {
        match self.pause_start {
            Some(since) => span_between(now, since),
            None => 0,
        }
    }

    /// How long the running pause has lasted; zero if none runs.
    pub fn pause_length(&self) -> (length: u64)
        ensures
            exists|now: u64| length == #[trigger] self@.pause_length(now),
            self.pause_start is None ==> length == 0,
    {
        let now = self.clock.now();
        self.pause_length_at(now)
    }
}

impl Timeline {
    /// No recorded reading lies after `now`: what a monotonic clock gives.
    pub open spec fn recorded_by(self, now: u64) -> bool {
        &&& self.start matches Some(start) ==> start <= now
        &&& self.pause_start matches Some(since) ==> since <= now
    }
}

/// The position lies in `[0, total]` at every reading, whatever the output
/// reports.
pub proof fn law_position_clamped(t: Timeline, now: u64, sink_empty: bool, sink_paused: bool)
    ensures
        0 <= t.position(now, sink_empty, sink_paused) <= t.total,
{
}

/// While the output is not paused the position never moves backwards, also
/// not when the output drains in between.
pub proof fn law_position_monotone(
    t: Timeline,
    earlier: u64,
    later: u64,
    drained_earlier: bool,
    drained_later: bool,
)
    requires
        earlier <= later,
        drained_earlier ==> drained_later,
    ensures
        t.position(earlier, drained_earlier, false) <= t.position(later, drained_later, false),
{
}

/// While paused the position stands still.
pub proof fn law_position_constant_while_paused(t: Timeline, earlier: u64, later: u64)
    requires
        t.pause_start is Some,
        t.recorded_by(earlier),
        earlier <= later,
    ensures
        t.position(earlier, false, true) == t.position(later, false, true),
{
}

/// Pausing does not move the position: at every reading during the pause it
/// is what it was when the pause began.
pub proof fn law_pause_keeps_position(t: Timeline, paused_at: u64, now: u64)
    requires
        paused_at <= now,
    ensures
        t.paused_at(paused_at).position(now, false, true) == t.position(paused_at, false, false),
{
}

/// A pause of length `d` adds `d` to the paused time, and the position right
/// after the resume is the position right before the pause.
///
/// The paused time is stored in 64 bits, so the sum must fit.
pub proof fn law_pause_accounting(t: Timeline, paused_at: u64, resumed_at: u64)
    requires
        paused_at <= resumed_at,
        t.paused + (resumed_at - paused_at) <= u64::MAX,
    ensures
        t.paused_at(paused_at).pause_ended(resumed_at) == Some((resumed_at - paused_at) as u64),
        t.paused_at(paused_at).played(resumed_at).paused == t.paused + (resumed_at - paused_at),
        t.paused_at(paused_at).played(resumed_at).position(resumed_at, false, false) == t.position(
            paused_at,
            false,
            false,
        ),
{
}

/// Right after a seek to a position within the track, the position is the
/// target, whatever the state was before; while paused it stays there.
pub proof fn law_seek_round_trip(t: Timeline, target: u64, is_paused: bool, now: u64, later: u64)
    requires
        target <= t.total,
        now <= later,
    ensures
        t.sought(target, is_paused, now).position(now, false, is_paused) == target,
        is_paused ==> t.sought(target, is_paused, now).position(later, false, true) == target,
        !is_paused ==> t.sought(target, is_paused, now).position(later, false, false) >= target,
{
}

/// A track that takes over starts at position zero and plays.
pub proof fn law_take_over_starts_at_zero(t: Timeline, path: Seq<char>, now: u64)
    ensures
        t.taken_over(path, now).position(now, false, false) == 0,
        t.taken_over(path, now).is_playing(),
        t.taken_over(path, now).path == Some(path),
{
}

/// What a listener can ask for between two reads of the position.
#[derive(Debug, Clone, Copy, PartialEq, Eq, Structural)]
pub enum Transport {
    Play,
    Pause,
}

/// A transport command and the clock reading at which it is carried out.
pub struct Command {
    pub what: Transport,
    pub at: u64,
}

impl Timeline {
    /// After one command.
    pub open spec fn apply(self, command: Command) -> Timeline {
        match command.what {
            Transport::Play => self.played(command.at),
            Transport::Pause => self.paused_at(command.at),
        }
    }

    /// After all of `commands`, first to last.
    pub open spec fn replay(self, commands: Seq<Command>) -> Timeline
        decreases commands.len(),
    {
        if commands.len() == 0 {
            self
        } else {
            self.replay(commands.drop_last()).apply(commands.last())
        }
    }

    /// The position that a listener reads at `now`, the output being paused
    /// exactly while a pause runs.
    pub open spec fn observed(self, now: u64) -> int {
        self.position(now, false, self.pause_start is Some)
    }
}

/// The reading of the last of `commands`, `from` if there is none.
pub open spec fn last_reading(from: u64, commands: Seq<Command>) -> u64 {
    if commands.len() == 0 {
        from
    } else {
        commands.last().at
    }
}

/// `commands` can happen to a player in state `t` at reading `from`: the
/// clock never runs backwards, a pause is asked for only while the track
/// plays, and play only while it does not.
pub open spec fn orderly(t: Timeline, from: u64, commands: Seq<Command>) -> bool
    decreases commands.len(),
{
    if commands.len() == 0 {
        t.recorded_by(from)
    } else {
        let before = commands.drop_last();
        let reached = t.replay(before);
        &&& orderly(t, from, before)
        &&& last_reading(from, before) <= commands.last().at
        &&& match commands.last().what {
            Transport::Pause => reached.start is Some && reached.pause_start is None,
            Transport::Play => reached.start is None || reached.pause_start is Some,
        }
    }
}

proof fn lemma_orderly_readings(t: Timeline, from: u64, commands: Seq<Command>)
    requires
        orderly(t, from, commands),
    ensures
        t.replay(commands).recorded_by(last_reading(from, commands)),
        forall|i: int| 0 <= i < commands.len() ==> (#[trigger] commands[i]).at <= last_reading(from, commands),
    decreases commands.len(),
{
    if commands.len() > 0 {
        let before = commands.drop_last();
        lemma_orderly_readings(t, from, before);
        assert forall|i: int| 0 <= i < commands.len() implies (#[trigger] commands[i]).at
            <= last_reading(from, commands) by {
            if i < before.len() {
                assert(before[i] == commands[i]);
            }
        }
    }
}

/// Over any orderly run of play and pause commands, with no seek, a position
/// read later is never smaller than one read earlier.
///
/// The first read is at `earlier`, after the first `split` commands and
/// before the next; the second is at `later`, after all of them.
pub proof fn law_position_never_decreases(
    t: Timeline,
    from: u64,
    commands: Seq<Command>,
    split: int,
    earlier: u64,
    later: u64,
)
    requires
        orderly(t, from, commands),
        0 <= split <= commands.len(),
        last_reading(from, commands.take(split)) <= earlier,
        split < commands.len() ==> earlier <= commands[split].at,
        last_reading(from, commands) <= later,
        earlier <= later,
    ensures
        t.replay(commands.take(split)).observed(earlier) <= t.replay(commands).observed(later),
    decreases commands.len(),
{
    lemma_orderly_readings(t, from, commands);
    if split == commands.len() {
        assert(commands.take(split) =~= commands);
    } else {
        let before = commands.drop_last();
        let command = commands.last();
        assert(before.take(split) =~= commands.take(split));
        assert(commands[split].at <= command.at);
        lemma_orderly_readings(t, from, before);
        if split < before.len() {
            assert(before[split] == commands[split]);
        }
        law_position_never_decreases(t, from, before, split, earlier, command.at);
    }
}

} // verus!
