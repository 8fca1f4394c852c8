//! The countdown state machine. It holds at most one pending target time,
//! is advanced by a periodic external tick, and fires exactly once per armed
//! timer. The host delivers the ticks with the current time of day, runs the
//! action pipeline when the engine fires, and reports the outcome back.

use vstd::prelude::*;

use crate::clock::ClockTime;
use crate::resolver::{resolve, spec_resolve, SchedulingMode, ValidationError};

verus! {

/// The engine's phase. `Armed` holds exactly while a target time is present;
/// `Firing` lasts from the tick that reached the target until the host
/// reports the pipeline's outcome; `Errored` carries the last failure
/// message and does not block re-arming.
#[derive(Clone, Copy, Debug, PartialEq, Eq, Structural)]
pub enum EngineState {
    Idle,
    Armed,
    Firing,
    Errored,
}

/// The small record the host persists across sessions: the scheduling mode,
/// the last raw input, and whether the application starts with the system.
pub struct PersistedConfig {
    pub mode: SchedulingMode,
    pub last_input: String,
    pub auto_start: bool,
}

impl Default for PersistedConfig {
    /// Delay mode, empty input, no autostart.
    fn default() -> (r: PersistedConfig)
        ensures
            r.mode == SchedulingMode::AfterDelay,
            r.last_input@ == Seq::<char>::empty(),
            !r.auto_start,
    {
        PersistedConfig { mode: SchedulingMode::AfterDelay, last_input: String::new(), auto_start: false }
    }
}

/// What a tick reported: nothing to do, the remaining whole seconds while
/// still armed, or that the target was reached and the action pipeline must
/// now run.
#[derive(Clone, Copy, Debug, PartialEq, Eq, Structural)]
pub enum TickOutcome {
    Inactive,
    Remaining(u32),
    Fire,
}

/// The countdown engine.
pub struct CountdownEngine {
    pub mode: SchedulingMode,
    pub input: String,
    pub state: EngineState,
    pub target: Option<ClockTime>,
    pub error: Option<String>,
    pub auto_start: bool,
}

/// The state transition a tick makes: an armed engine whose target has been
/// reached moves to `Firing` and drops its target; every other engine is
/// left exactly as it was.
pub open spec fn spec_tick(e: CountdownEngine, now: int) -> CountdownEngine {
    if spec_tick_fires(e, now) {
        CountdownEngine { state: EngineState::Firing, target: None, ..e }
    } else {
        e
    }
}

/// A tick fires exactly when the engine is armed and the target time is not
/// after the current time.
pub open spec fn spec_tick_fires(e: CountdownEngine, now: int) -> bool {
    e.state is Armed && (e.target matches Some(t) && t@ <= now)
}

/// The engine after the given ticks, oldest first.
pub open spec fn run_ticks(e: CountdownEngine, nows: Seq<int>) -> CountdownEngine
    decreases nows.len(),
{
    if nows.len() == 0 {
        e
    } else {
        run_ticks(spec_tick(e, nows[0]), nows.drop_first())
    }
}

/// How many of the given ticks fire, oldest first.
pub open spec fn count_fires(e: CountdownEngine, nows: Seq<int>) -> nat
    decreases nows.len(),
{
    if nows.len() == 0 {
        0
    } else {
        (if spec_tick_fires(e, nows[0]) {
            1nat
        } else {
            0nat
        }) + count_fires(spec_tick(e, nows[0]), nows.drop_first())
    }
}

impl CountdownEngine {
    /// Well-formed engine: armed exactly when a target is held, the target
    /// lies within the day, and errored exactly when a message is held.
    pub open spec fn wf(self) -> bool {
        &&& (self.state is Armed <==> self.target is Some)
        &&& (self.target matches Some(t) ==> t.wf())
        &&& (self.state is Errored <==> self.error is Some)
    }

    /// A fresh engine, idle, loaded from the persisted record.
    pub fn new(config: PersistedConfig) -> (r: CountdownEngine)
        ensures
            r.wf(),
            r.mode == config.mode,
            r.input == config.last_input,
            r.state == EngineState::Idle,
            r.target is None,
            r.error is None,
            r.auto_start == config.auto_start,
    {
        CountdownEngine {
            mode: config.mode,
            input: config.last_input,
            state: EngineState::Idle,
            target: None,
            error: None,
            auto_start: config.auto_start,
        }
    }

    /// Switches the scheduling mode. A change of mode abandons any pending
    /// target and clears any error; choosing the current mode again changes
    /// nothing.
    pub fn set_mode(&mut self, new_mode: SchedulingMode)
        requires
            old(self).wf(),
        ensures
            final(self).wf(),
            new_mode == old(self).mode ==> *final(self) == *old(self),
            new_mode != old(self).mode ==> *final(self) == (CountdownEngine {
                mode: new_mode,
                state: EngineState::Idle,
                target: None,
                error: None,
                ..*old(self)
            }),
    {
        if !(new_mode == self.mode) {
            self.mode = new_mode;
            self.state = EngineState::Idle;
            self.target = None;
            self.error = None;
        }
    }

    /// Replaces the raw input verbatim. The input is only read when the
    /// timer is started, so nothing else changes.
    pub fn set_input(&mut self, text: String)
        requires
            old(self).wf(),
        ensures
            final(self).wf(),
            *final(self) == (CountdownEngine { input: text, ..*old(self) }),
    {
        self.input = text;
    }

    /// Records whether the application should start with the system. The
    /// host installs or removes its platform autostart hook and persists the
    /// configuration after this call.
    pub fn set_auto_start(&mut self, enabled: bool)
        requires
            old(self).wf(),
        ensures
            final(self).wf(),
            *final(self) == (CountdownEngine { auto_start: enabled, ..*old(self) }),
    {
        self.auto_start = enabled;
    }

    /// The record the host persists for the next session.
    pub fn config(&self) -> (r: PersistedConfig)
        ensures
            r.mode == self.mode,
            r.last_input@ == self.input@,
            r.auto_start == self.auto_start,
    {
        PersistedConfig {
            mode: self.mode,
            last_input: self.input.clone(),
            auto_start: self.auto_start,
        }
    }

    /// Arms the timer from the current mode and input. Any prior target and
    /// any prior error are discarded first; on success the engine holds the
    /// one new target and the host should persist the configuration, on a
    /// validation error the engine is errored with the message and no target
    /// is held.
    pub fn start(&mut self, now: ClockTime) -> (r: Result<ClockTime, ValidationError>)
        requires
            old(self).wf(),
            now.wf(),
        ensures
            final(self).wf(),
            final(self).mode == old(self).mode,
            final(self).input == old(self).input,
            final(self).auto_start == old(self).auto_start,
            match spec_resolve(old(self).mode, old(self).input@, now@) {
                Ok(t) => {
                    &&& final(self).state is Armed
                    &&& (final(self).target matches Some(c) && c@ == t)
                    &&& final(self).error is None
                    &&& (r matches Ok(c) && c@ == t)
                },
                Err(e) => {
                    &&& final(self).state is Errored
                    &&& final(self).target is None
                    &&& (final(self).error matches Some(m) && m@ == e.spec_message())
                    &&& r == Err::<ClockTime, ValidationError>(e)
                },
            },
    {
        self.target = None;
        self.error = None;
        match resolve(self.mode, self.input.as_str(), now) {
            Ok(t) => {
                self.state = EngineState::Armed;
                self.target = Some(t);
                Ok(t)
            },
            Err(e) => {
                self.state = EngineState::Errored;
                self.error = Some(e.message());
                Err(e)
            },
        }
    }

    /// Advances the engine by one tick of the external clock. Anything but
    /// an armed engine is left untouched; an armed engine whose target has
    /// been reached moves to `Firing`, and the host must now run the action
    /// pipeline and report its outcome through `finish_firing`.
    pub fn tick(&mut self, now: ClockTime) -> (r: TickOutcome)
        requires
            old(self).wf(),
            now.wf(),
        ensures
            final(self).wf(),
            *final(self) == spec_tick(*old(self), now@),
            r == TickOutcome::Fire <==> spec_tick_fires(*old(self), now@),
            r == TickOutcome::Inactive <==> !(old(self).state is Armed),
            (old(self).state is Armed && !spec_tick_fires(*old(self), now@)) ==> (
            old(self).target matches Some(t) && r == TickOutcome::Remaining(
                (t@ - now@) as u32,
            )),
    {
        if !matches!(self.state, EngineState::Armed) {
            return TickOutcome::Inactive;
        }
        let target = self.target.unwrap();
        let target_secs = target.seconds_of_day();
        let now_secs = now.seconds_of_day();
        if now_secs >= target_secs {
            self.state = EngineState::Firing;
            self.target = None;
            TickOutcome::Fire
        } else {
            TickOutcome::Remaining(target_secs - now_secs)
        }
    }

    /// Reports the action pipeline's outcome after a fire. A firing engine
    /// returns to `Idle` on success, or to `Errored` carrying the failure
    /// message; an engine in any other state is left untouched.
    pub fn finish_firing(&mut self, outcome: Result<(), String>)
        requires
            old(self).wf(),
        ensures
            final(self).wf(),
            old(self).state is Firing ==> match outcome {
                Ok(()) => *final(self) == (CountdownEngine {
                    state: EngineState::Idle,
                    error: None,
                    ..*old(self)
                }),
                Err(m) => *final(self) == (CountdownEngine {
                    state: EngineState::Errored,
                    error: Some(m),
                    ..*old(self)
                }),
            },
            !(old(self).state is Firing) ==> *final(self) == *old(self),
    {
        if matches!(self.state, EngineState::Firing) {
            match outcome {
                Ok(()) => {
                    self.state = EngineState::Idle;
                    self.error = None;
                },
                Err(m) => {
                    self.state = EngineState::Errored;
                    self.error = Some(m);
                },
            }
        }
    }

    /// Whether the host should keep delivering ticks: only an armed engine
    /// is waiting on the clock.
    pub fn wants_ticks(&self) -> (r: bool)
        ensures
            r == (self.state is Armed),
    {
        matches!(self.state, EngineState::Armed)
    }
}

/// Ticks delivered before the target time change nothing: the engine stays
/// armed on the same target, and none of them fires.
pub proof fn lemma_ticks_before_target_change_nothing(
    e: CountdownEngine,
    tt: ClockTime,
    nows: Seq<int>,
)
    requires
        e.state is Armed,
        e.target == Some(tt),
        forall|i: int| 0 <= i < nows.len() ==> nows[i] < tt@,
    ensures
        run_ticks(e, nows) == e,
        count_fires(e, nows) == 0,
    decreases nows.len(),
{
    if nows.len() > 0 {
        assert(!spec_tick_fires(e, nows[0]));
        assert(spec_tick(e, nows[0]) == e);
        lemma_ticks_before_target_change_nothing(e, tt, nows.drop_first());
    }
}

/// An engine that is not armed never fires, however many ticks arrive.
pub proof fn lemma_unarmed_never_fires(e: CountdownEngine, nows: Seq<int>)
    requires
        !(e.state is Armed),
    ensures
        run_ticks(e, nows) == e,
        count_fires(e, nows) == 0,
    decreases nows.len(),
{
    if nows.len() > 0 {
        assert(spec_tick(e, nows[0]) == e);
        lemma_unarmed_never_fires(e, nows.drop_first());
    }
}

/// At-most-once firing: whatever ticks arrive, and wherever they cross the
/// target, at most one of them fires the action pipeline.
pub proof fn lemma_fires_at_most_once(e: CountdownEngine, nows: Seq<int>)
    ensures
        count_fires(e, nows) <= 1,
    decreases nows.len(),
{
    if nows.len() > 0 {
        let e2 = spec_tick(e, nows[0]);
        if spec_tick_fires(e, nows[0]) {
            lemma_unarmed_never_fires(e2, nows.drop_first());
        } else {
            lemma_fires_at_most_once(e2, nows.drop_first());
        }
    }
}

} // verus!
