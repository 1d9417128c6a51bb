use vstd::prelude::*;

verus! {

/// Semitones from A to the named pitch letter within one octave
/// (either case), or `None` when `c` names no pitch.
pub open spec fn letter_offset(c: char) -> Option<int> {
    if c == 'C' || c == 'c' {
        Some(-9)
    } else if c == 'D' || c == 'd' {
        Some(-7)
    } else if c == 'E' || c == 'e' {
        Some(-5)
    } else if c == 'F' || c == 'f' {
        Some(-4)
    } else if c == 'G' || c == 'g' {
        Some(-2)
    } else if c == 'A' || c == 'a' {
        Some(0)
    } else if c == 'B' || c == 'b' {
        Some(2)
    } else {
        None
    }
}

/// The shift an accidental character gives: `#` raises, `b`/`B` lowers,
/// anything else is no accidental.
pub open spec fn accidental_shift(c: char) -> int {
    if c == '#' {
        1
    } else if c == 'b' || c == 'B' {
        -1
    } else {
        0
    }
}

/// The octave a character selects: a decimal digit gives its value,
/// anything else the default octave 4.
pub open spec fn octave_of(c: char) -> int {
    if '0' <= c && c <= '9' {
        (c as u32) as int - ('0' as u32) as int
    } else {
        4
    }
}

/// Semitones of token `t` relative to A4, or `None` when the token does
/// not start with a pitch letter.
/// Grammar: letter, optional accidental, optional octave digit.
pub open spec fn note_semitones(t: Seq<char>) -> Option<int> {
    if t.len() == 0 {
        None
    } else {
        match letter_offset(t[0]) {
            None => None,
            Some(base) => {
                let shift = if t.len() > 1 { accidental_shift(t[1]) } else { 0 };
                let k: int = if shift != 0 { 2 } else { 1 };
                let octave = if t.len() > k { octave_of(t[k]) } else { 4 };
                Some(base + shift + (octave - 4) * 12)
            },
        }
    }
}

fn letter_offset_exec(c: char) -> (r: Option<i32>)
    ensures
        r matches Some(v) ==> letter_offset(c) == Some(v as int),
        r is None ==> letter_offset(c) is None,
{
    if c == 'C' || c == 'c' {
        Some(-9)
    } else if c == 'D' || c == 'd' {
        Some(-7)
    } else if c == 'E' || c == 'e' {
        Some(-5)
    } else if c == 'F' || c == 'f' {
        Some(-4)
    } else if c == 'G' || c == 'g' {
        Some(-2)
    } else if c == 'A' || c == 'a' {
        Some(0)
    } else if c == 'B' || c == 'b' {
        Some(2)
    } else {
        None
    }
}

/// Parses one note token, given as its characters, into semitones relative
/// to A4 (`None`: not a note).
pub fn parse_note_chars(t: &Vec<char>) -> (r: Option<i32>)
    ensures
        r matches Some(v) ==> note_semitones(t@) == Some(v as int),
        r is None ==> note_semitones(t@) is None,
{
    if t.len() == 0 {
        return None;
    }
    let base = match letter_offset_exec(t[0]) {
        Some(b) => b,
        None => {
            return None;
        },
    };
    let mut shift: i32 = 0;
    if t.len() > 1 {
        let c = t[1];
        if c == '#' {
            shift = 1;
        } else if c == 'b' || c == 'B' {
            shift = -1;
        }
    }
    let k: usize = if shift != 0 { 2 } else { 1 };
    let mut octave: i32 = 4;
    if t.len() > k {
        let c = t[k];
        if '0' <= c && c <= '9' {
            octave = (c as u32 - '0' as u32) as i32;
        }
    }
    Some(base + shift + (octave - 4) * 12)
}

/// The characters of `s`, in order.
pub fn chars_of(s: &str) -> (r: Vec<char>)
    ensures
        r@ == s@,
{
    let n = s.unicode_len();
    let mut r: Vec<char> = Vec::new();
    let mut i: usize = 0;
    while i < n
        invariant
            n == s@.len(),
            i <= n,
            r@ == s@.take(i as int),
        decreases n - i,
    {
        r.push(s.get_char(i));
        i += 1;
        assert(r@ =~= s@.take(i as int));
    }
    assert(r@ =~= s@);
    r
}

/// Parses one note token into semitones relative to A4, or `None` when the
/// token does not start with a pitch letter A-G (either case).
pub fn parse_note(note: &str) -> (r: Option<i32>)
    ensures
        r matches Some(v) ==> note_semitones(note@) == Some(v as int),
        r is None ==> note_semitones(note@) is None,
{
    let t = chars_of(note);
    parse_note_chars(&t)
}

} // verus!
