//! Process configuration: the size of the shared buffer, read from the text
//! of one setting, and the way the controller watches its resources.

use vstd::prelude::*;
use vstd::string::StringSliceAdditionalSpecFns;

verus! {

/// Name of the setting that gives the shared buffer's size in bytes.
pub const HEAP_MEM_SIZE: &'static str = "HEAP_MEM_SIZE";

/// The byte is an ASCII decimal digit.
pub open spec fn is_digit(b: u8) -> bool {
    0x30 <= b <= 0x39
}

/// Every byte of the sequence is an ASCII decimal digit.
pub open spec fn all_digits(s: Seq<u8>) -> bool {
    forall|i: int| 0 <= i < s.len() ==> is_digit(#[trigger] s[i])
}

/// The number that a sequence of decimal digits writes, most significant
/// digit first. The empty sequence writes zero.
pub open spec fn digits_value(s: Seq<u8>) -> nat
    decreases s.len(),
{
    if s.len() == 0 {
        0
    } else {
        digits_value(s.drop_last()) * 10 + (s.last() - 0x30) as nat
    }
}

/// The text without one leading plus sign, if it has one.
pub open spec fn unsigned_part(s: Seq<u8>) -> Seq<u8> {
    if s.len() > 0 && s[0] == 0x2b {
        s.subrange(1, s.len() as int)
    } else {
        s
    }
}

/// The size that a text states: an optional plus sign, then one or more
/// decimal digits and nothing else, writing a number that a `usize` holds.
/// Any other text states no size.
pub open spec fn stated_size(s: Seq<u8>) -> Option<usize> {
    let digits = unsigned_part(s);
    if digits.len() > 0 && all_digits(digits) && digits_value(digits) <= usize::MAX {
        Some(digits_value(digits) as usize)
    } else {
        None
    }
}

/// The buffer size that a setting configures: what its text states, and
/// zero where the setting is absent or its text states no size.
pub open spec fn configured_size(raw: Option<Seq<u8>>) -> usize {
    match raw {
        Some(s) => match stated_size(s) {
            Some(n) => n,
            None => 0,
        },
        None => 0,
    }
}

/// A longer digit sequence writes a number at least as large as each of its
/// prefixes does.
proof fn lemma_prefix_value(s: Seq<u8>, k: int)
    requires
        0 <= k <= s.len(),
    ensures
        digits_value(s.subrange(0, k)) <= digits_value(s),
    decreases s.len() - k,
{
    if k == s.len() {
        assert(s.subrange(0, k) =~= s);
    } else {
        lemma_prefix_value(s, k + 1);
        let longer = s.subrange(0, k + 1);
        assert(longer.drop_last() =~= s.subrange(0, k));
    }
}

/// Reads the size that a text states.
pub fn parse_size(text: &[u8]) -> (size: Option<usize>)
    ensures
        size == stated_size(text@),
{
    let len = text.len();
    let start: usize = if len > 0 && text[0] == 0x2b { 1 } else { 0 };
    let ghost digits = unsigned_part(text@);
    assert(digits =~= text@.subrange(start as int, len as int));
    if start == len {
        return None;
    }
    let mut value: usize = 0;
    let mut i: usize = start;
    while i < len
        invariant
            start <= i <= len,
            len == text@.len(),
            digits == unsigned_part(text@),
            digits == text@.subrange(start as int, len as int),
            all_digits(digits.subrange(0, i - start)),
            value == digits_value(digits.subrange(0, i - start)),
        decreases len - i,
    {
        let b = text[i];
        let ghost seen = digits.subrange(0, i - start);
        let ghost next = digits.subrange(0, i - start + 1);
        assert(next.drop_last() =~= seen);
        assert(next.last() == b);
        if b < 0x30 || b > 0x39 {
            assert(!is_digit(digits[i - start]));
            return None;
        }
        assert(all_digits(next)) by {
            assert forall|j: int| 0 <= j < next.len() implies is_digit(#[trigger] next[j]) by {
                if j < seen.len() {
                    assert(next[j] == seen[j]);
                }
            }
        }
        let digit: usize = (b - 0x30) as usize;
        let grown = match value.checked_mul(10) {
            Some(tens) => tens.checked_add(digit),
            None => None,
        };
        match grown {
            Some(v) => {
                value = v;
            },
            None => {
                proof {
                    assert(digits_value(next) > usize::MAX);
                    lemma_prefix_value(digits, i - start + 1);
                }
                return None;
            },
        }
        i += 1;
    }
    assert(digits.subrange(0, i - start) =~= digits);
    Some(value)
}

/// The buffer size that the setting configures, given the setting's text or
/// `None` where it is not set.
pub fn heap_mem_size(raw: Option<&str>) -> (size: usize)
    ensures
        size == configured_size(
            match raw {
                Some(s) => Some(s.spec_bytes()),
                None => None,
            },
        ),
{
    match raw {
        Some(s) => match parse_size(s.as_bytes()) {
            Some(n) => n,
            None => 0,
        },
        None => 0,
    }
}

/// How the controller watches its resources.
#[derive(Clone, Copy, Debug, PartialEq, Eq, Structural)]
pub struct WatchConfig {
    /// Whether the server is asked for checkpoints from which a watch could
    /// resume without listing everything again.
    pub bookmarks: bool,
}

impl WatchConfig {
    /// The watch configuration of this controller: no checkpoints, so that
    /// every restart of the watch begins with a full list.
    pub fn new() -> (config: Self)
        ensures
            config == (WatchConfig { bookmarks: false }),
    {
        WatchConfig { bookmarks: false }
    }
}

} // verus!
