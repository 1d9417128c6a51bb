use vstd::prelude::*;
use crate::note::{note_semitones, parse_note_chars, chars_of};

verus! {

/// What an event sounds: a tone, in semitones relative to A4, or silence.
#[derive(Clone, Copy, Debug, PartialEq, Eq, Structural)]
pub enum Sound {
    Tone(i32),
    Silence,
}

/// One compiled event: a sound held for a number of base time units.
#[derive(Clone, Copy, Debug, PartialEq, Eq, Structural)]
pub struct CompiledEvent {
    pub sound: Sound,
    pub duration_units: u64,
}

/// An event as a sound and a duration in units.
pub type EventModel = (Sound, nat);

/// The event in progress while a sequence is read: `None` when nothing is held.
pub type Pending = Option<EventModel>;

pub open spec fn event_model(e: CompiledEvent) -> EventModel {
    (e.sound, e.duration_units as nat)
}

pub open spec fn events_model(v: Seq<CompiledEvent>) -> Seq<EventModel> {
    v.map_values(|e: CompiledEvent| event_model(e))
}

/// The separators of the sequence language: ASCII whitespace.
pub open spec fn is_separator(c: char) -> bool {
    c == ' ' || c == '\t' || c == '\n' || c == '\r' || c == '\x0C'
}

/// Reading `s` left to right: the tokens completed so far and the token
/// being read.
pub open spec fn scan(s: Seq<char>) -> (Seq<Seq<char>>, Seq<char>)
    decreases s.len(),
{
    if s.len() == 0 {
        (Seq::empty(), Seq::empty())
    } else {
        let (done, cur) = scan(s.drop_last());
        let c = s.last();
        if is_separator(c) {
            if cur.len() > 0 {
                (done.push(cur), Seq::empty())
            } else {
                (done, Seq::empty())
            }
        } else {
            (done, cur.push(c))
        }
    }
}

/// The maximal runs of non-separator characters of `s`, in order.
pub open spec fn tokens(s: Seq<char>) -> Seq<Seq<char>> {
    let (done, cur) = scan(s);
    if cur.len() > 0 {
        done.push(cur)
    } else {
        done
    }
}

pub open spec fn is_hold(t: Seq<char>) -> bool {
    t == seq!['-']
}

pub open spec fn is_rest(t: Seq<char>) -> bool {
    t == seq!['X'] || t == seq!['x']
}

/// Appends the pending event, if any, to the output.
pub open spec fn flush(out: Seq<EventModel>, p: Pending) -> Seq<EventModel> {
    match p {
        Some(e) => out.push(e),
        None => out,
    }
}

/// One token applied to the compiler state (output so far, pending event).
pub open spec fn compile_step(st: (Seq<EventModel>, Pending), t: Seq<char>) -> (Seq<EventModel>, Pending) {
    let (out, p) = st;
    if is_hold(t) {
        match p {
            Some((s, d)) => (out, Some((s, d + 1))),
            None => (out, None),
        }
    } else if is_rest(t) {
        (flush(out, p), Some((Sound::Silence, 1nat)))
    } else {
        match note_semitones(t) {
            Some(v) => (flush(out, p), Some((Sound::Tone(v as i32), 1nat))),
            None => (flush(out, p), None),
        }
    }
}

/// The compiler state after the tokens `ts`, from the empty state.
pub open spec fn compile_tokens(ts: Seq<Seq<char>>) -> (Seq<EventModel>, Pending)
    decreases ts.len(),
{
    if ts.len() == 0 {
        (Seq::empty(), None)
    } else {
        compile_step(compile_tokens(ts.drop_last()), ts.last())
    }
}

/// The events that the sequence `s` compiles to.
pub open spec fn compile_spec(s: Seq<char>) -> Seq<EventModel> {
    let (out, p) = compile_tokens(tokens(s));
    flush(out, p)
}

pub open spec fn pending_model(p: Option<CompiledEvent>) -> Pending {
    match p {
        Some(e) => Some(event_model(e)),
        None => None,
    }
}

fn is_hold_exec(t: &Vec<char>) -> (r: bool)
    ensures
        r == is_hold(t@),
{
    let r = t.len() == 1 && t[0] == '-';
    proof {
        if r {
            assert(t@ =~= seq!['-']);
        } else if t@ == seq!['-'] {
            assert(seq!['-'][0] == '-');
        }
    }
    r
}

fn is_rest_exec(t: &Vec<char>) -> (r: bool)
    ensures
        r == is_rest(t@),
{
    let r = t.len() == 1 && (t[0] == 'X' || t[0] == 'x');
    proof {
        if r {
            assert(t@ =~= seq!['X'] || t@ =~= seq!['x']);
        } else if t@ == seq!['X'] || t@ == seq!['x'] {
            assert(seq!['X'][0] == 'X');
            assert(seq!['x'][0] == 'x');
        }
    }
    r
}

fn flush_exec(out: &mut Vec<CompiledEvent>, pending: Option<CompiledEvent>)
    ensures
        events_model(final(out)@) == flush(events_model(old(out)@), pending_model(pending)),
        pending matches Some(e) ==> final(out)@ == old(out)@.push(e),
        pending is None ==> final(out)@ == old(out)@,
{
    if let Some(e) = pending {
        out.push(e);
        assert(events_model(out@) =~= events_model(old(out)@).push(event_model(e)));
    }
}

/// Applies one token to the compiler state.
fn compile_token(out: &mut Vec<CompiledEvent>, pending: &mut Option<CompiledEvent>, t: &Vec<char>)
    requires
        *old(pending) matches Some(e) ==> e.duration_units < u64::MAX,
    ensures
        (events_model(final(out)@), pending_model(*final(pending))) == compile_step(
            (events_model(old(out)@), pending_model(*old(pending))),
            t@,
        ),
        (forall|i: int| 0 <= i < old(out)@.len() ==> old(out)@[i].duration_units >= 1)
            && (*old(pending) matches Some(e) ==> e.duration_units >= 1) ==> (forall|i: int|
            0 <= i < final(out)@.len() ==> final(out)@[i].duration_units >= 1),
        *final(pending) matches Some(e) ==> 1 <= e.duration_units,
        *final(pending) matches Some(e) ==> e.duration_units <= 1 || (*old(pending) matches Some(
            o,
        ) && e.duration_units == o.duration_units + 1),
{
    if is_hold_exec(t) {
        if let Some(e) = *pending {
            *pending = Some(CompiledEvent { sound: e.sound, duration_units: e.duration_units + 1 });
        }
    } else if is_rest_exec(t) {
        flush_exec(out, *pending);
        *pending = Some(CompiledEvent { sound: Sound::Silence, duration_units: 1 });
    } else {
        flush_exec(out, *pending);
        match parse_note_chars(t) {
            Some(v) => {
                *pending = Some(CompiledEvent { sound: Sound::Tone(v), duration_units: 1 });
            },
            None => {
                *pending = None;
            },
        }
    }
}

/// Compiles a note sequence: whitespace-separated tokens, where a pitch
/// token starts a tone, `X`/`x` starts a silence, `-` lengthens the event in
/// progress by one unit, and any other token ends the event in progress and
/// is dropped. Each event covers a maximal run and lasts at least one unit.
pub fn compile_sequence(sequence: &str) -> (r: Vec<CompiledEvent>)
    ensures
        events_model(r@) == compile_spec(sequence@),
        forall|i: int| 0 <= i < r@.len() ==> r@[i].duration_units >= 1,
{
    let s = chars_of(sequence);
    let n = s.len();
    let mut out: Vec<CompiledEvent> = Vec::new();
    let mut pending: Option<CompiledEvent> = None;
    let mut cur: Vec<char> = Vec::new();
    let ghost mut done: Seq<Seq<char>> = Seq::empty();
    let ghost mut last: int = 0;
    let mut i: usize = 0;
    while i < n
        invariant
            n == s@.len(),
            s@ == sequence@,
            i <= n,
            scan(s@.take(i as int)) == (done, cur@),
            (events_model(out@), pending_model(pending)) == compile_tokens(done),
            forall|j: int| 0 <= j < out@.len() ==> out@[j].duration_units >= 1,
            pending matches Some(e) ==> 1 <= e.duration_units <= last,
            0 <= last,
            last + cur@.len() <= i,
        decreases n - i,
    {
        let c = s[i];
        assert(s@.take(i + 1).drop_last() =~= s@.take(i as int));
        if c == ' ' || c == '\t' || c == '\n' || c == '\r' || c == '\x0C' {
            if cur.len() > 0 {
                compile_token(&mut out, &mut pending, &cur);
                proof {
                    let prev = done;
                    done = done.push(cur@);
                    assert(done.drop_last() =~= prev);
                    last = i as int;
                }
                cur = Vec::new();
            }
        } else {
            cur.push(c);
        }
        i += 1;
    }
    assert(s@.take(n as int) =~= s@);
    if cur.len() > 0 {
        compile_token(&mut out, &mut pending, &cur);
        proof {
            let prev = done;
            done = done.push(cur@);
            assert(done.drop_last() =~= prev);
        }
    }
    assert(tokens(sequence@) == done);
    flush_exec(&mut out, pending);
    out
}

proof fn lemma_compile_tokens_positive(ts: Seq<Seq<char>>)
    ensures
        ({
            let (out, p) = compile_tokens(ts);
            &&& forall|i: int| 0 <= i < out.len() ==> #[trigger] out[i].1 >= 1
            &&& p matches Some(e) ==> e.1 >= 1
        }),
    decreases ts.len(),
{
    if ts.len() > 0 {
        lemma_compile_tokens_positive(ts.drop_last());
        let (out, p) = compile_tokens(ts.drop_last());
        let f = flush(out, p);
        assert forall|i: int| 0 <= i < f.len() implies #[trigger] f[i].1 >= 1 by {
            if i < out.len() {
                assert(f[i] == out[i]);
            }
        }
    }
}

/// Every event that a sequence compiles to lasts at least one unit.
pub proof fn lemma_compiled_events_positive(s: Seq<char>)
    ensures
        forall|i: int| 0 <= i < compile_spec(s).len() ==> #[trigger] compile_spec(s)[i].1 >= 1,
{
    lemma_compile_tokens_positive(tokens(s));
    let (out, p) = compile_tokens(tokens(s));
    let f = flush(out, p);
    assert forall|i: int| 0 <= i < f.len() implies #[trigger] f[i].1 >= 1 by {
        if i < out.len() {
            assert(f[i] == out[i]);
        }
    }
}

/// Compiling is a function of the text alone: two event lists that both
/// meet `compile_sequence`'s contract for the same text are equal.
pub proof fn lemma_compile_repeatable(s: Seq<char>, r1: Seq<CompiledEvent>, r2: Seq<CompiledEvent>)
    requires
        events_model(r1) == compile_spec(s),
        events_model(r2) == compile_spec(s),
    ensures
        r1 == r2,
{
    assert(r1.len() == events_model(r1).len());
    assert(r2.len() == events_model(r2).len());
    assert forall|i: int| 0 <= i < r1.len() implies r1[i] == r2[i] by {
        assert(events_model(r1)[i] == events_model(r2)[i]);
    }
    assert(r1 =~= r2);
}

} // verus!
