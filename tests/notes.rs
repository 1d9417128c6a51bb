use hourly_chime::note::parse_note;

fn frequency(semitones: i32) -> f32 {
    440.0 * 2.0_f32.powf(semitones as f32 / 12.0)
}

fn close(a: f32, b: f32) -> bool {
    (a - b).abs() < 0.01
}

#[test]
fn a4_is_concert_pitch() {
    let s = parse_note("A4").unwrap();
    assert_eq!(s, 0);
    assert_eq!(frequency(s), 440.0);
}

#[test]
fn reference_pitches() {
    assert_eq!(parse_note("C4"), Some(-9));
    assert!(close(frequency(parse_note("C4").unwrap()), 261.63));
    assert_eq!(parse_note("A#4"), Some(1));
    assert!(close(frequency(parse_note("A#4").unwrap()), 466.16));
    assert_eq!(parse_note("Ab4"), Some(-1));
    assert!(close(frequency(parse_note("Ab4").unwrap()), 415.30));
}

#[test]
fn invalid_tokens() {
    assert_eq!(parse_note("Z"), None);
    assert_eq!(parse_note(""), None);
    assert_eq!(parse_note("-"), None);
    assert_eq!(parse_note("#4"), None);
}

#[test]
fn case_and_defaults() {
    assert_eq!(parse_note("a4"), Some(0));
    assert_eq!(parse_note("c"), Some(-9));
    assert_eq!(parse_note("B"), Some(2));
    assert_eq!(parse_note("C5"), Some(3));
    assert_eq!(parse_note("C#5"), Some(4));
    assert_eq!(parse_note("cb"), Some(-10));
    assert_eq!(parse_note("A0"), Some(-48));
    assert_eq!(parse_note("B#9"), Some(63));
}

#[test]
fn odd_octave_falls_back_to_four() {
    assert_eq!(parse_note("Cx"), Some(-9));
    assert_eq!(parse_note("C#?"), Some(-8));
    assert_eq!(parse_note("D55"), Some(5));
}
