use hourly_chime::error::ChimeError;
use hourly_chime::strike::{
    strike_count, ChimeJob, Phase, StrikeAction, StrikeEvent, StrikeScheduler, DRAIN_GRACE_MS,
};

#[test]
fn strike_count_from_hour() {
    assert_eq!(strike_count(0), 12);
    for h in 1..=12u32 {
        let c = strike_count(h);
        assert_eq!(c, h);
        assert!((1..=12).contains(&c));
    }
}

fn job(i: u32, offset: u128) -> StrikeAction {
    StrikeAction::Launch(ChimeJob { sequence_index: i, scheduled_offset_ms: offset })
}

fn run_batch(hour: u32, stagger: u64, outcome: impl Fn(u32) -> bool) -> Vec<StrikeAction> {
    let mut s = StrikeScheduler::new(false, true, stagger);
    let mut actions = vec![];
    let mut a = s.step(StrikeEvent::Begin);
    assert_eq!(a, StrikeAction::ReadHour);
    a = s.step(StrikeEvent::HourRead(hour));
    loop {
        actions.push(a);
        a = match a {
            StrikeAction::Launch(j) => s.step(StrikeEvent::Launched(outcome(j.sequence_index))),
            StrikeAction::Sleep(_) => s.step(StrikeEvent::Slept),
            _ => break,
        };
    }
    assert_eq!(s.phase, Phase::Done);
    actions
}

#[test]
fn batch_launches_count_jobs_with_stagger() {
    let acts = run_batch(3, 2000, |_| true);
    assert_eq!(
        acts,
        vec![
            job(0, 0),
            StrikeAction::Sleep(2000),
            job(1, 2000),
            StrikeAction::Sleep(2000),
            job(2, 4000),
            StrikeAction::Sleep(DRAIN_GRACE_MS),
            StrikeAction::Finished,
        ]
    );
}

#[test]
fn midnight_strikes_twelve() {
    let acts = run_batch(0, 10, |_| true);
    let launches: Vec<_> = acts.iter().filter(|a| matches!(a, StrikeAction::Launch(_))).collect();
    assert_eq!(launches.len(), 12);
    assert_eq!(*launches[11], job(11, 110));
}

#[test]
fn broken_strike_does_not_stop_the_rest() {
    let good = run_batch(5, 700, |_| true);
    let broken = run_batch(5, 700, |i| i != 1);
    assert_eq!(good, broken);
    let launches = broken.iter().filter(|a| matches!(a, StrikeAction::Launch(_))).count();
    assert_eq!(launches, 5);
}

#[test]
fn prelude_plays_first() {
    let mut s = StrikeScheduler::new(true, true, 100);
    assert_eq!(s.step(StrikeEvent::Begin), StrikeAction::PlayPrelude);
    assert_eq!(s.phase, Phase::PlayingPrelude);
    assert_eq!(s.step(StrikeEvent::PreludeFinished(true)), StrikeAction::ReadHour);
    assert_eq!(s.step(StrikeEvent::HourRead(1)), job(0, 0));
    assert_eq!(s.step(StrikeEvent::Launched(true)), StrikeAction::Sleep(DRAIN_GRACE_MS));
    assert_eq!(s.phase, Phase::Draining);
    assert_eq!(s.step(StrikeEvent::Slept), StrikeAction::Finished);
}

#[test]
fn prelude_failure_aborts() {
    let mut s = StrikeScheduler::new(true, true, 100);
    s.step(StrikeEvent::Begin);
    assert_eq!(
        s.step(StrikeEvent::PreludeFinished(false)),
        StrikeAction::Failed(ChimeError::PreludeFailed)
    );
    assert_eq!(s.phase, Phase::Done);
}

#[test]
fn missing_strike_file_is_reported() {
    let mut s = StrikeScheduler::new(false, false, 100);
    assert_eq!(
        s.step(StrikeEvent::Begin),
        StrikeAction::Failed(ChimeError::MissingStrikeFile)
    );
    let mut p = StrikeScheduler::new(true, false, 100);
    p.step(StrikeEvent::Begin);
    assert_eq!(
        p.step(StrikeEvent::PreludeFinished(true)),
        StrikeAction::Failed(ChimeError::MissingStrikeFile)
    );
}

#[test]
fn unexpected_event_changes_nothing() {
    let mut s = StrikeScheduler::new(false, true, 100);
    let before = s;
    assert_eq!(s.step(StrikeEvent::Slept), StrikeAction::Nothing);
    assert_eq!(s, before);
    s.step(StrikeEvent::Begin);
    let mid = s;
    assert_eq!(s.step(StrikeEvent::Launched(true)), StrikeAction::Nothing);
    assert_eq!(s, mid);
}

#[test]
fn large_stagger_offsets_do_not_wrap() {
    let acts = run_batch(12, u64::MAX, |_| true);
    assert_eq!(acts[22], job(11, 11 * (u64::MAX as u128)));
}
