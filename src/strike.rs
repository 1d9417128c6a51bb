use vstd::prelude::*;
use crate::error::ChimeError;

verus! {

/// How long the scheduler waits after the last launch before it returns,
/// in milliseconds.
pub const DRAIN_GRACE_MS: u64 = 5000;

/// Number of strikes for an hour given in 12-hour form: the hour itself,
/// except that 0 stands for 12.
pub open spec fn strike_count_of(hour12: u32) -> u32 {
    if hour12 == 0 { 12 } else { hour12 }
}

/// How many times the clock strikes for `hour12`, an hour in 12-hour form.
pub fn strike_count(hour12: u32) -> (count: u32)
    ensures
        count == strike_count_of(hour12),
        count >= 1,
        hour12 <= 12 ==> count <= 12,
{
    if hour12 == 0 { 12 } else { hour12 }
}

/// One strike to launch: its place in the batch and its offset from the
/// first launch, in milliseconds.
#[derive(Clone, Copy, Debug, PartialEq, Eq, Structural)]
pub struct ChimeJob {
    pub sequence_index: u32,
    pub scheduled_offset_ms: u128,
}

pub open spec fn job_spec(index: u32, stagger_ms: u64) -> ChimeJob {
    ChimeJob {
        sequence_index: index,
        scheduled_offset_ms: (index as int * stagger_ms as int) as u128,
    }
}

/// The stages of one grandfather-clock chime.
#[derive(Clone, Copy, Debug, PartialEq, Eq, Structural)]
pub enum Phase {
    Idle,
    PlayingPrelude,
    DispatchingStrikes,
    Draining,
    Done,
}

/// What the scheduler is told by whoever carries out its actions.
#[derive(Clone, Copy, Debug, PartialEq, Eq, Structural)]
pub enum StrikeEvent {
    /// The chime is triggered.
    Begin,
    /// The prelude was played through (`true`) or failed (`false`).
    PreludeFinished(bool),
    /// The current hour, in 12-hour form.
    HourRead(u32),
    /// The last strike job was handed off; `false` when it broke at once.
    Launched(bool),
    /// The last requested sleep is over.
    Slept,
}

/// What the scheduler asks to be done next.
#[derive(Clone, Copy, Debug, PartialEq, Eq, Structural)]
pub enum StrikeAction {
    /// Play the prelude to its end, then report `PreludeFinished`.
    PlayPrelude,
    /// Read the wall-clock hour, then report `HourRead`.
    ReadHour,
    /// Start this strike on its own output, without waiting for it,
    /// then report `Launched`.
    Launch(ChimeJob),
    /// Sleep this many milliseconds, then report `Slept`.
    Sleep(u64),
    /// The chime is over; every strike was launched.
    Finished,
    /// The chime stopped early, for this reason.
    Failed(ChimeError),
    /// The event did not fit the current stage; nothing changed.
    Nothing,
}

/// One run of the grandfather-clock scheduler.
#[derive(Clone, Copy, Debug, PartialEq, Eq, Structural)]
pub struct StrikeScheduler {
    pub phase: Phase,
    pub has_prelude: bool,
    pub has_strike_file: bool,
    pub stagger_ms: u64,
    /// Strikes in this batch; 0 until the hour is known.
    pub count: u32,
    /// Strikes launched so far.
    pub launched: u32,
    /// A launch was requested and is not yet reported.
    pub awaiting_launch: bool,
}

impl StrikeScheduler {
    /// The scheduler's invariant.
    pub open spec fn wf(self) -> bool {
        &&& self.launched <= self.count
        &&& (self.phase == Phase::Idle || self.phase == Phase::PlayingPrelude) ==> self.count == 0
        &&& self.phase != Phase::DispatchingStrikes ==> !self.awaiting_launch
        &&& self.count == 0 ==> self.launched == 0 && !self.awaiting_launch
        &&& self.phase == Phase::DispatchingStrikes && self.count > 0 ==> (if self.awaiting_launch {
            self.launched < self.count
        } else {
            0 < self.launched < self.count
        })
        &&& self.phase == Phase::Draining ==> self.count > 0 && self.launched == self.count
            && !self.awaiting_launch
    }

    pub open spec fn new_spec(has_prelude: bool, has_strike_file: bool, stagger_ms: u64) -> Self {
        StrikeScheduler {
            phase: Phase::Idle,
            has_prelude,
            has_strike_file,
            stagger_ms,
            count: 0,
            launched: 0,
            awaiting_launch: false,
        }
    }

    /// After the prelude, or at once without one: stop when no strike file
    /// is configured, else ask for the hour.
    pub open spec fn start_strikes(self) -> (Self, StrikeAction) {
        if self.has_strike_file {
            (StrikeScheduler { phase: Phase::DispatchingStrikes, ..self }, StrikeAction::ReadHour)
        } else {
            (
                StrikeScheduler { phase: Phase::Done, ..self },
                StrikeAction::Failed(ChimeError::MissingStrikeFile),
            )
        }
    }

    /// The transition on `e`: the next state and the action it asks for.
    pub open spec fn next(self, e: StrikeEvent) -> (Self, StrikeAction) {
        match (self.phase, e) {
            (Phase::Idle, StrikeEvent::Begin) => if self.has_prelude {
                (StrikeScheduler { phase: Phase::PlayingPrelude, ..self }, StrikeAction::PlayPrelude)
            } else {
                self.start_strikes()
            },
            (Phase::PlayingPrelude, StrikeEvent::PreludeFinished(ok)) => if ok {
                self.start_strikes()
            } else {
                (
                    StrikeScheduler { phase: Phase::Done, ..self },
                    StrikeAction::Failed(ChimeError::PreludeFailed),
                )
            },
            (Phase::DispatchingStrikes, StrikeEvent::HourRead(h)) if self.count == 0 => (
                StrikeScheduler {
                    count: strike_count_of(h),
                    launched: 0,
                    awaiting_launch: true,
                    ..self
                },
                StrikeAction::Launch(job_spec(0, self.stagger_ms)),
            ),
            (Phase::DispatchingStrikes, StrikeEvent::Launched(_)) if self.awaiting_launch => {
                let launched = (self.launched + 1) as u32;
                if launched < self.count {
                    (
                        StrikeScheduler { launched, awaiting_launch: false, ..self },
                        StrikeAction::Sleep(self.stagger_ms),
                    )
                } else {
                    (
                        StrikeScheduler {
                            phase: Phase::Draining,
                            launched,
                            awaiting_launch: false,
                            ..self
                        },
                        StrikeAction::Sleep(DRAIN_GRACE_MS),
                    )
                }
            },
            (Phase::DispatchingStrikes, StrikeEvent::Slept) if self.count > 0
                && !self.awaiting_launch => (
                StrikeScheduler { awaiting_launch: true, ..self },
                StrikeAction::Launch(job_spec(self.launched, self.stagger_ms)),
            ),
            (Phase::Draining, StrikeEvent::Slept) => (
                StrikeScheduler { phase: Phase::Done, ..self },
                StrikeAction::Finished,
            ),
            _ => (self, StrikeAction::Nothing),
        }
    }

    /// A fresh scheduler for one chime. `stagger_ms` is the pause between
    /// two launches.
    pub fn new(has_prelude: bool, has_strike_file: bool, stagger_ms: u64) -> (r: Self)
        ensures
            r == Self::new_spec(has_prelude, has_strike_file, stagger_ms),
            r.wf(),
    {
        StrikeScheduler {
            phase: Phase::Idle,
            has_prelude,
            has_strike_file,
            stagger_ms,
            count: 0,
            launched: 0,
            awaiting_launch: false,
        }
    }

    fn job(&self, index: u32) -> (r: ChimeJob)
        ensures
            r == job_spec(index, self.stagger_ms),
    {
        let i = index as u128;
        let s = self.stagger_ms as u128;
        assert(i * s <= u32::MAX as int * u64::MAX as int) by (nonlinear_arith)
            requires
                i <= u32::MAX,
                s <= u64::MAX,
        ;
        ChimeJob { sequence_index: index, scheduled_offset_ms: i * s }
    }

    fn start_strikes_exec(&mut self) -> (a: StrikeAction)
        ensures
            (*final(self), a) == old(self).start_strikes(),
    {
        if self.has_strike_file {
            self.phase = Phase::DispatchingStrikes;
            StrikeAction::ReadHour
        } else {
            self.phase = Phase::Done;
            StrikeAction::Failed(ChimeError::MissingStrikeFile)
        }
    }

    /// Takes one event and returns the action it calls for. Events that do
    /// not fit the current stage change nothing.
    pub fn step(&mut self, e: StrikeEvent) -> (a: StrikeAction)
        requires
            old(self).wf(),
        ensures
            (*final(self), a) == old(self).next(e),
            final(self).wf(),
    {
        match (self.phase, e) {
            (Phase::Idle, StrikeEvent::Begin) => {
                if self.has_prelude {
                    self.phase = Phase::PlayingPrelude;
                    StrikeAction::PlayPrelude
                } else {
                    self.start_strikes_exec()
                }
            },
            (Phase::PlayingPrelude, StrikeEvent::PreludeFinished(ok)) => {
                if ok {
                    self.start_strikes_exec()
                } else {
                    self.phase = Phase::Done;
                    StrikeAction::Failed(ChimeError::PreludeFailed)
                }
            },
            (Phase::DispatchingStrikes, StrikeEvent::HourRead(h)) if self.count == 0 => {
                self.count = strike_count(h);
                self.launched = 0;
                self.awaiting_launch = true;
                StrikeAction::Launch(self.job(0))
            },
            (Phase::DispatchingStrikes, StrikeEvent::Launched(_)) if self.awaiting_launch => {
                let launched = self.launched + 1;
                self.launched = launched;
                self.awaiting_launch = false;
                if launched < self.count {
                    StrikeAction::Sleep(self.stagger_ms)
                } else {
                    self.phase = Phase::Draining;
                    StrikeAction::Sleep(DRAIN_GRACE_MS)
                }
            },
            (Phase::DispatchingStrikes, StrikeEvent::Slept) if self.count > 0
                && !self.awaiting_launch => {
                self.awaiting_launch = true;
                StrikeAction::Launch(self.job(self.launched))
            },
            (Phase::Draining, StrikeEvent::Slept) => {
                self.phase = Phase::Done;
                StrikeAction::Finished
            },
            _ => StrikeAction::Nothing,
        }
    }
}

/// The state and the actions that follow from `s` when each launch is
/// reported with the next outcome of `oks` and each sleep with `Slept`,
/// until the scheduler leaves the dispatching stage or `oks` runs out.
pub open spec fn dispatch_run(s: StrikeScheduler, oks: Seq<bool>) -> (StrikeScheduler, Seq<StrikeAction>)
    decreases oks.len(),
{
    if oks.len() == 0 {
        (s, Seq::empty())
    } else {
        let (s1, a1) = s.next(StrikeEvent::Launched(oks[0]));
        if s1.phase != Phase::DispatchingStrikes {
            (s1, seq![a1])
        } else {
            let (s2, a2) = s1.next(StrikeEvent::Slept);
            let (s3, rest) = dispatch_run(s2, oks.drop_first());
            (s3, seq![a1, a2] + rest)
        }
    }
}

/// The action at position `j` of the actions of a batch of `n` strikes:
/// the launches at even positions, in index order, a stagger sleep between
/// two launches, and the drain grace period last.
pub open spec fn batch_action(j: int, n: int, stagger_ms: u64) -> StrikeAction {
    if j % 2 == 0 {
        StrikeAction::Launch(job_spec((j / 2) as u32, stagger_ms))
    } else if j < 2 * n - 1 {
        StrikeAction::Sleep(stagger_ms)
    } else {
        StrikeAction::Sleep(DRAIN_GRACE_MS)
    }
}

proof fn lemma_dispatch_run(s: StrikeScheduler, oks: Seq<bool>)
    requires
        s.wf(),
        s.phase == Phase::DispatchingStrikes,
        s.count > 0,
        s.awaiting_launch,
        oks.len() == s.count - s.launched,
    ensures
        ({
            let (f, acts) = dispatch_run(s, oks);
            &&& f.phase == Phase::Draining
            &&& f.launched == s.count
            &&& acts.len() == 2 * (s.count - s.launched) - 1
            &&& forall|j: int|
                0 <= j < acts.len() ==> #[trigger] acts[j] == batch_action(
                    j + 2 * s.launched + 1,
                    s.count as int,
                    s.stagger_ms,
                )
        }),
    decreases oks.len(),
{
    let (s1, a1) = s.next(StrikeEvent::Launched(oks[0]));
    if s1.phase == Phase::DispatchingStrikes {
        let (s2, a2) = s1.next(StrikeEvent::Slept);
        lemma_dispatch_run(s2, oks.drop_first());
        let (s3, rest) = dispatch_run(s2, oks.drop_first());
        let acts = seq![a1, a2] + rest;
        assert forall|j: int| 0 <= j < acts.len() implies #[trigger] acts[j] == batch_action(
            j + 2 * s.launched + 1,
            s.count as int,
            s.stagger_ms,
        ) by {
            if j >= 2 {
                assert(acts[j] == rest[j - 2]);
                assert(j - 2 + 2 * s2.launched + 1 == j + 2 * s.launched + 1);
            } else if j == 1 {
                assert((2 * s.launched + 2) / 2 == s.launched + 1);
            }
        }
    }
}

/// Whatever the hour and however each launch turns out, a batch started
/// by the hour launches exactly `strike_count_of(hour12)` strikes, in index
/// order: launch `k` is scheduled `k` stagger intervals after the first,
/// and one stagger sleep lies between two launches, so it starts no earlier
/// than that. The drain grace period follows the last launch.
pub proof fn lemma_strike_batch(s: StrikeScheduler, hour12: u32, oks: Seq<bool>)
    requires
        s.wf(),
        s.phase == Phase::DispatchingStrikes,
        s.count == 0,
        oks.len() == strike_count_of(hour12),
    ensures
        ({
            let (s0, a0) = s.next(StrikeEvent::HourRead(hour12));
            let (f, acts) = dispatch_run(s0, oks);
            let all = seq![a0] + acts;
            let n = strike_count_of(hour12) as int;
            &&& f.phase == Phase::Draining
            &&& f.launched == n
            &&& all.len() == 2 * n
            &&& forall|j: int| 0 <= j < all.len() ==> #[trigger] all[j] == batch_action(j, n, s.stagger_ms)
        }),
{
    let (s0, a0) = s.next(StrikeEvent::HourRead(hour12));
    lemma_dispatch_run(s0, oks);
    let (f, acts) = dispatch_run(s0, oks);
    let all = seq![a0] + acts;
    let n = strike_count_of(hour12) as int;
    assert forall|j: int| 0 <= j < all.len() implies #[trigger] all[j] == batch_action(
        j,
        n,
        s.stagger_ms,
    ) by {
        if j > 0 {
            assert(all[j] == acts[j - 1]);
        }
    }
}

/// A strike that breaks does not change what the scheduler does next: the
/// outcome reported for a launch is never consulted.
pub proof fn lemma_launch_outcome_ignored(s: StrikeScheduler)
    ensures
        s.next(StrikeEvent::Launched(true)) == s.next(StrikeEvent::Launched(false)),
{
}

} // verus!
