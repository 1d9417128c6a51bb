use hourly_chime::render::{render, render_all, render_sequence, Segment, BASE_UNIT_MS};
use hourly_chime::sequence::{compile_sequence, CompiledEvent, Sound};

fn tone(s: i32, d: u64) -> CompiledEvent {
    CompiledEvent { sound: Sound::Tone(s), duration_units: d }
}

fn rest(d: u64) -> CompiledEvent {
    CompiledEvent { sound: Sound::Silence, duration_units: d }
}

#[test]
fn holds_extend_the_tone() {
    assert_eq!(compile_sequence("C - - E"), vec![tone(-9, 3), tone(-5, 1)]);
}

#[test]
fn rest_token_gives_silence() {
    assert_eq!(compile_sequence("C X E"), vec![tone(-9, 1), rest(1), tone(-5, 1)]);
    assert_eq!(compile_sequence("x - C"), vec![rest(2), tone(-9, 1)]);
}

#[test]
fn invalid_token_is_dropped() {
    assert_eq!(compile_sequence("C Z E"), vec![tone(-9, 1), tone(-5, 1)]);
    assert_eq!(compile_sequence("C Z - E"), vec![tone(-9, 1), tone(-5, 1)]);
}

#[test]
fn empty_sequence() {
    assert_eq!(compile_sequence(""), vec![]);
    assert_eq!(compile_sequence("   \t\n"), vec![]);
}

#[test]
fn leading_hold_is_dropped() {
    assert_eq!(compile_sequence("- - G"), vec![tone(-2, 1)]);
}

#[test]
fn whitespace_kinds_separate() {
    assert_eq!(
        compile_sequence("  C\tE\nG  C5 "),
        vec![tone(-9, 1), tone(-5, 1), tone(-2, 1), tone(3, 1)]
    );
}

#[test]
fn compiling_twice_gives_the_same_events() {
    let s = "C - E X - G# -- Ab5 -";
    let a = compile_sequence(s);
    let b = compile_sequence(s);
    assert_eq!(a, b);
    assert_eq!(a, vec![tone(-9, 2), tone(-5, 1), rest(2), tone(-1, 1), tone(11, 2)]);
}

#[test]
fn every_event_lasts_a_unit() {
    for e in compile_sequence("C - X - - Q - E F - - -") {
        assert!(e.duration_units >= 1);
    }
}

#[test]
fn render_multiplies_units() {
    assert_eq!(
        render(tone(0, 3), 300),
        Segment { sound: Sound::Tone(0), duration_ms: 900 }
    );
    assert_eq!(render(rest(2), 250), Segment { sound: Sound::Silence, duration_ms: 500 });
    let big = render(tone(1, u64::MAX), u64::MAX);
    assert_eq!(big.duration_ms, (u64::MAX as u128) * (u64::MAX as u128));
}

#[test]
fn render_keeps_order() {
    let segs = render_all(&vec![tone(-9, 1), rest(2)], 100);
    assert_eq!(
        segs,
        vec![
            Segment { sound: Sound::Tone(-9), duration_ms: 100 },
            Segment { sound: Sound::Silence, duration_ms: 200 },
        ]
    );
}

#[test]
fn render_sequence_uses_base_unit() {
    assert_eq!(BASE_UNIT_MS, 300);
    assert_eq!(
        render_sequence("C - - E"),
        vec![
            Segment { sound: Sound::Tone(-9), duration_ms: 900 },
            Segment { sound: Sound::Tone(-5), duration_ms: 300 },
        ]
    );
}
