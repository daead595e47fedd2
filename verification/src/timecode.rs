use vstd::prelude::*;

verus! {

/// Errors of the duration extractor.
#[derive(Clone, Copy, PartialEq, Eq, Structural, Debug)]
pub enum ExtractionError {
    /// No substring of the recognized text has the shape `HH:MM:SS.mmm`.
    PatternMismatch,
}

/// An ASCII decimal digit.
pub open spec fn is_digit(b: u8) -> bool {
    0x30 <= b <= 0x39
}

pub open spec fn digit_val(b: u8) -> int {
    b - 0x30
}

/// The twelve bytes starting at `i` spell a timecode `HH:MM:SS.mmm`:
/// two digits, a colon, two digits, a colon, two digits, a dot, three
/// digits.
pub open spec fn timecode_at(s: Seq<u8>, i: int) -> bool {
    &&& 0 <= i
    &&& i + 12 <= s.len()
    &&& is_digit(s[i])
    &&& is_digit(s[i + 1])
    &&& s[i + 2] == 0x3a
    &&& is_digit(s[i + 3])
    &&& is_digit(s[i + 4])
    &&& s[i + 5] == 0x3a
    &&& is_digit(s[i + 6])
    &&& is_digit(s[i + 7])
    &&& s[i + 8] == 0x2e
    &&& is_digit(s[i + 9])
    &&& is_digit(s[i + 10])
    &&& is_digit(s[i + 11])
}

/// Total milliseconds spelled by the timecode starting at `i`:
/// `((H * 60 + M) * 60 + S) * 1000 + mmm`.
pub open spec fn timecode_millis(s: Seq<u8>, i: int) -> int {
    let h = 10 * digit_val(s[i]) + digit_val(s[i + 1]);
    let m = 10 * digit_val(s[i + 3]) + digit_val(s[i + 4]);
    let sec = 10 * digit_val(s[i + 6]) + digit_val(s[i + 7]);
    let ms = 100 * digit_val(s[i + 9]) + 10 * digit_val(s[i + 10]) + digit_val(s[i + 11]);
    ((h * 60 + m) * 60 + sec) * 1000 + ms
}

fn timecode_match_at(text: &[u8], i: usize) -> (r: bool)
    requires
        i + 12 <= text@.len(),
    ensures
        r == timecode_at(text@, i as int),
{
    let d0 = text[i];
    let d1 = text[i + 1];
    let c2 = text[i + 2];
    let d3 = text[i + 3];
    let d4 = text[i + 4];
    let c5 = text[i + 5];
    let d6 = text[i + 6];
    let d7 = text[i + 7];
    let c8 = text[i + 8];
    let d9 = text[i + 9];
    let d10 = text[i + 10];
    let d11 = text[i + 11];
    0x30 <= d0 && d0 <= 0x39 && 0x30 <= d1 && d1 <= 0x39 && c2 == 0x3a && 0x30 <= d3 && d3 <= 0x39
        && 0x30 <= d4 && d4 <= 0x39 && c5 == 0x3a && 0x30 <= d6 && d6 <= 0x39 && 0x30 <= d7 && d7
        <= 0x39 && c8 == 0x2e && 0x30 <= d9 && d9 <= 0x39 && 0x30 <= d10 && d10 <= 0x39 && 0x30
        <= d11 && d11 <= 0x39
}

/// Finds the first timecode `HH:MM:SS.mmm` anywhere in the recognized text
/// and returns the total milliseconds it spells; fails when no substring has
/// that shape.
pub fn extract(text: &[u8]) -> (r: Result<u64, ExtractionError>)
    ensures
        match r {
            Ok(ms) => exists|i: int|
                #[trigger] timecode_at(text@, i) && (forall|j: int|
                    0 <= j < i ==> !timecode_at(text@, j)) && ms == timecode_millis(text@, i),
            Err(e) => e == ExtractionError::PatternMismatch && forall|i: int|
                !timecode_at(text@, i),
        },
{
    let n: usize = text.len();
    if n < 12 {
        return Err(ExtractionError::PatternMismatch);
    }
    let last: usize = n - 12;
    let mut i: usize = 0;
    while i <= last
        invariant
            n == text@.len(),
            last == n - 12,
            i <= last + 1,
            forall|j: int| 0 <= j < i ==> !timecode_at(text@, j),
        decreases last + 1 - i,
    {
        if timecode_match_at(text, i) {
            let h: u64 = 10 * ((text[i] - 0x30) as u64) + ((text[i + 1] - 0x30) as u64);
            let m: u64 = 10 * ((text[i + 3] - 0x30) as u64) + ((text[i + 4] - 0x30) as u64);
            let sec: u64 = 10 * ((text[i + 6] - 0x30) as u64) + ((text[i + 7] - 0x30) as u64);
            let ms: u64 = 100 * ((text[i + 9] - 0x30) as u64) + 10 * ((text[i + 10] - 0x30) as u64)
                + ((text[i + 11] - 0x30) as u64);
            let total: u64 = ((h * 60 + m) * 60 + sec) * 1000 + ms;
            return Ok(total);
        }
        i = i + 1;
    }
    proof {
        assert forall|j: int| !timecode_at(text@, j) by {
            if 0 <= j < i {
            } else {
                assert(!(0 <= j && j + 12 <= text@.len()) ==> !timecode_at(text@, j));
            }
        }
    }
    Err(ExtractionError::PatternMismatch)
}

/// Renders an elapsed time as the twelve-byte readout `HH:MM:SS.mmm`, the
/// exact shape the extractor parses. Capped below one hundred hours so that
/// two digits suffice for the hour field.
pub fn format_elapsed(seconds: u64, millis: u32) -> (r: Vec<u8>)
    requires
        millis < 1000,
        seconds < 360000,
    ensures
        r@.len() == 12,
        timecode_at(r@, 0),
        timecode_millis(r@, 0) == seconds * 1000 + millis,
{
    let h: u64 = seconds / 3600;
    let rem: u64 = seconds % 3600;
    let m: u64 = rem / 60;
    let sec: u64 = rem % 60;
    let ms1: u32 = millis / 100;
    let msr: u32 = millis % 100;
    let ms2: u32 = msr / 10;
    let ms3: u32 = msr % 10;
    let mut out: Vec<u8> = Vec::new();
    out.push(0x30 + (h / 10) as u8);
    out.push(0x30 + (h % 10) as u8);
    out.push(0x3a);
    out.push(0x30 + (m / 10) as u8);
    out.push(0x30 + (m % 10) as u8);
    out.push(0x3a);
    out.push(0x30 + (sec / 10) as u8);
    out.push(0x30 + (sec % 10) as u8);
    out.push(0x2e);
    out.push(0x30 + ms1 as u8);
    out.push(0x30 + ms2 as u8);
    out.push(0x30 + ms3 as u8);
    proof {
        assert(timecode_millis(out@, 0) == seconds * 1000 + millis) by {
            assert(seconds == 3600 * h + rem);
            assert(rem == 60 * m + sec);
            assert(millis == 100 * ms1 + msr);
            assert(msr == 10 * ms2 + ms3);
            assert(h == 10 * (h / 10) + h % 10);
            assert(m == 10 * (m / 10) + m % 10);
            assert(sec == 10 * (sec / 10) + sec % 10);
        }
    }
    out
}

/// Magnitude of the difference between two durations in milliseconds.
pub open spec fn delay_of(a: u64, b: u64) -> u64 {
    if a > b {
        (a - b) as u64
    } else {
        (b - a) as u64
    }
}

/// The measured delay between the two extracted readouts: the absolute
/// difference of the two durations, in milliseconds.
pub fn duration_sub(a: u64, b: u64) -> (r: u64)
    ensures
        r == delay_of(a, b),
{
    if a > b {
        a - b
    } else {
        b - a
    }
}

/// The measured delay does not depend on which peer's readout is read
/// first: the absolute difference is symmetric.
pub proof fn lemma_delay_symmetric(a: u64, b: u64)
    ensures
        delay_of(a, b) == delay_of(b, a),
{
}

/// A readout that spells a timecode from its very first byte is what the
/// extractor reports: the first match is at position zero, so extraction
/// inverts rendering.
pub proof fn lemma_extract_of_rendered(s: Seq<u8>, i: int, ms: u64)
    requires
        timecode_at(s, 0),
        timecode_at(s, i),
        forall|j: int| 0 <= j < i ==> !timecode_at(s, j),
        ms == timecode_millis(s, i),
    ensures
        i == 0,
        ms == timecode_millis(s, 0),
{
    if i > 0 {
        assert(!timecode_at(s, 0));
    }
}

} // verus!
