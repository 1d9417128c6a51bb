use vstd::prelude::*;
use crate::sequence::{CompiledEvent, EventModel, Sound, compile_sequence, compile_spec, event_model, events_model};

verus! {

/// Length of one run-length unit, in milliseconds.
pub const BASE_UNIT_MS: u64 = 300;

/// A playable segment: a sound and how long it lasts, in milliseconds.
#[derive(Clone, Copy, Debug, PartialEq, Eq, Structural)]
pub struct Segment {
    pub sound: Sound,
    pub duration_ms: u128,
}

/// The segment for an event: its sound, for its units times the unit length.
pub open spec fn segment_of(e: EventModel, base_unit_ms: u64) -> Segment {
    Segment { sound: e.0, duration_ms: (base_unit_ms as int * e.1) as u128 }
}

pub open spec fn segments_of(events: Seq<EventModel>, base_unit_ms: u64) -> Seq<Segment> {
    events.map_values(|e: EventModel| segment_of(e, base_unit_ms))
}

/// The segment for one event: its sound for `base_unit_ms` times its units.
pub fn render(event: CompiledEvent, base_unit_ms: u64) -> (r: Segment)
    ensures
        r == segment_of(event_model(event), base_unit_ms),
        r.duration_ms as int == base_unit_ms as int * event.duration_units as int,
{
    let b = base_unit_ms as u128;
    let d = event.duration_units as u128;
    assert(b * d <= u64::MAX as int * u64::MAX as int) by (nonlinear_arith)
        requires
            b <= u64::MAX,
            d <= u64::MAX,
    ;
    Segment { sound: event.sound, duration_ms: b * d }
}

/// The segments for `events`, in playback order.
pub fn render_all(events: &Vec<CompiledEvent>, base_unit_ms: u64) -> (r: Vec<Segment>)
    ensures
        r@ == segments_of(events_model(events@), base_unit_ms),
{
    let mut r: Vec<Segment> = Vec::new();
    let mut i: usize = 0;
    while i < events.len()
        invariant
            i <= events@.len(),
            r@ == segments_of(events_model(events@.take(i as int)), base_unit_ms),
        decreases events@.len() - i,
    {
        r.push(render(events[i], base_unit_ms));
        i += 1;
        assert(r@ =~= segments_of(events_model(events@.take(i as int)), base_unit_ms));
    }
    assert(events@.take(i as int) =~= events@);
    r
}

/// Compiles a note sequence and renders it with the standard unit length.
/// Every segment lasts at least one unit.
pub fn render_sequence(sequence: &str) -> (r: Vec<Segment>)
    ensures
        r@ == segments_of(compile_spec(sequence@), BASE_UNIT_MS),
        forall|i: int| 0 <= i < r@.len() ==> r@[i].duration_ms >= BASE_UNIT_MS,
{
    let events = compile_sequence(sequence);
    let r = render_all(&events, BASE_UNIT_MS);
    assert forall|i: int| 0 <= i < r@.len() implies r@[i].duration_ms >= BASE_UNIT_MS by {
        let u = events@[i].duration_units as int;
        assert(BASE_UNIT_MS as int * u >= BASE_UNIT_MS as int) by (nonlinear_arith)
            requires
                u >= 1,
        ;
    }
    r
}

} // verus!
