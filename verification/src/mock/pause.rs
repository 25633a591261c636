//! Reading a length of time from a text such as `2s` or `1h 30min`.

use crate::mock::Pause;
use vstd::prelude::*;
use vstd::utf8::encode_utf8;

verus! {

/// The most digits that one number of a text may have to be read.
pub const MAX_DIGITS: usize = 10;

/// The most numbers that a text may hold to be read.
pub const MAX_NUMBERS: usize = 50;

/// One of the bytes `0` to `9`.
pub open spec fn is_digit_byte(b: u8) -> bool {
    48 <= b <= 57
}

/// One of the bytes `A` to `Z` and `a` to `z`.
pub open spec fn is_letter_byte(b: u8) -> bool {
    (65 <= b <= 90) || (97 <= b <= 122)
}

/// How many digits stand behind the last letter.
pub open spec fn digit_run(bytes: Seq<u8>) -> nat
    decreases bytes.len(),
{
    if bytes.len() == 0 {
        0
    } else if is_letter_byte(bytes.last()) {
        0
    } else if is_digit_byte(bytes.last()) {
        digit_run(bytes.drop_last()) + 1
    } else {
        digit_run(bytes.drop_last())
    }
}

/// How many numbers the bytes hold: a number begins with the first digit of
/// the bytes, and with the first digit behind a letter.
pub open spec fn number_count(bytes: Seq<u8>) -> nat
    decreases bytes.len(),
{
    if bytes.len() == 0 {
        0
    } else if is_digit_byte(bytes.last()) && digit_run(bytes.drop_last()) == 0 {
        number_count(bytes.drop_last()) + 1
    } else {
        number_count(bytes.drop_last())
    }
}

/// No number has more than [`MAX_DIGITS`] digits.
pub open spec fn numbers_short(bytes: Seq<u8>) -> bool
    decreases bytes.len(),
{
    bytes.len() == 0 || (numbers_short(bytes.drop_last()) && digit_run(bytes) <= MAX_DIGITS)
}

/// The bytes hold no more than [`MAX_NUMBERS`] numbers, and none with more
/// than [`MAX_DIGITS`] digits.
pub open spec fn bounded(bytes: Seq<u8>) -> bool {
    numbers_short(bytes) && number_count(bytes) <= MAX_NUMBERS
}

/// What holds of the bytes holds of the first of them: a long number among
/// the first bytes is a long number of them all, and the count of numbers
/// only grows.
pub proof fn lemma_bounded_prefix(bytes: Seq<u8>, n: int)
    requires
        0 <= n <= bytes.len(),
    ensures
        numbers_short(bytes) ==> numbers_short(bytes.take(n)),
        number_count(bytes.take(n)) <= number_count(bytes),
    decreases bytes.len() - n,
{
    if n < bytes.len() {
        lemma_bounded_prefix(bytes, n + 1);
        assert(bytes.take(n + 1).drop_last() =~= bytes.take(n));
    } else {
        assert(bytes.take(n) =~= bytes);
    }
}

/// What `humantime::parse_duration` makes of a text: the whole seconds and
/// the nanoseconds beyond them, or nothing where it refuses the text.
pub uninterp spec fn parsed_duration(text: Seq<char>) -> Option<(u64, u32)>;

/// The length of time that a text stands for. A text with more than
/// [`MAX_NUMBERS`] numbers, or with a number of more than [`MAX_DIGITS`]
/// digits, stands for none.
pub open spec fn duration_of(text: Seq<char>) -> Option<Pause> {
    if bounded(encode_utf8(text)) {
        match parsed_duration(text) {
            Some((secs, nanos)) => Some(Pause { secs, nanos }),
            None => None,
        }
    } else {
        None
    }
}

/// `humantime::parse_duration`, with the seconds and nanoseconds of the
/// `Duration` that it returns, or nothing where it returns an error. The
/// nanoseconds of a `Duration` are below one second.
///
/// The parser builds its result with `Duration::new`, which panics where
/// the seconds stand at `u64::MAX` and the nanoseconds carry over. The
/// bound keeps the seconds away from there. The parser adds up one term for
/// each number with its unit, and every unit ends in a letter, so the digits
/// of a number stand between two letters. A number of ten digits is below
/// 10^10, and the longest unit, the year, has 31 557 600 seconds: a term
/// adds less than 3.2 * 10^17 seconds, and fifty terms less than
/// 1.6 * 10^19, which is below `u64::MAX`.
#[verifier::external_body]
fn parse_duration(text: &str) -> (r: Option<(u64, u32)>)
    requires
        bounded(encode_utf8(text@)),
    ensures
        r == parsed_duration(text@),
        r matches Some((_, nanos)) ==> nanos < 1_000_000_000,
{
    match humantime::parse_duration(text) {
        Ok(duration) => Some((duration.as_secs(), duration.subsec_nanos())),
        Err(_) => None,
    }
}

/// Whether the text holds no more than [`MAX_NUMBERS`] numbers, and none
/// with more than [`MAX_DIGITS`] digits.
pub fn is_bounded(text: &str) -> (r: bool)
    ensures
        r == bounded(encode_utf8(text@)),
{
    let bytes = text.as_bytes();
    let mut run: usize = 0;
    let mut numbers: usize = 0;
    let mut i: usize = 0;
    while i < bytes.len()
        invariant
            bytes@ == encode_utf8(text@),
            i <= bytes.len(),
            run == digit_run(bytes@.take(i as int)),
            numbers == number_count(bytes@.take(i as int)),
            numbers_short(bytes@.take(i as int)),
            run <= MAX_DIGITS,
            numbers <= MAX_NUMBERS,
        decreases bytes.len() - i,
    {
        proof {
            assert(bytes@.take(i + 1).drop_last() =~= bytes@.take(i as int));
            assert(bytes@.take(i + 1).last() == bytes@[i as int]);
        }
        let b = bytes[i];
        if (65 <= b && b <= 90) || (97 <= b && b <= 122) {
            run = 0;
        } else if 48 <= b && b <= 57 {
            if run == 0 {
                if numbers == MAX_NUMBERS {
                    proof {
                        lemma_bounded_prefix(bytes@, i + 1);
                    }
                    return false;
                }
                numbers += 1;
            }
            if run == MAX_DIGITS {
                proof {
                    lemma_bounded_prefix(bytes@, i + 1);
                }
                return false;
            }
            run += 1;
        }
        i += 1;
    }
    proof {
        assert(bytes@.take(i as int) =~= bytes@);
    }
    true
}

impl Pause {
    /// Reads a length of time from a text of numbers with units.
    pub fn parse(text: &str) -> (r: Option<Pause>)
        ensures
            r == duration_of(text@),
            r matches Some(pause) ==> pause.wf(),
    {
        if is_bounded(text) {
            match parse_duration(text) {
                Some((secs, nanos)) => Some(Pause { secs, nanos }),
                None => None,
            }
        } else {
            None
        }
    }
}

} // verus!
