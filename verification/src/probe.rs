//! The size probe: reading a `Content-Length` header value and choosing the
//! transfer mode from it.

use vstd::prelude::*;

verus! {

/// How the body is transferred and how progress is shown.
#[derive(Clone, Copy, Debug, PartialEq, Eq, Structural)]
pub enum TransferMode {
    /// The server disclosed the total length in bytes.
    Sized(u64),
    /// No usable length: progress is an amount over time.
    Unknown,
}

/// An ASCII decimal digit.
pub open spec fn is_digit(b: u8) -> bool {
    48 <= b <= 57
}

/// Every byte of `s` is a decimal digit.
pub open spec fn all_digits(s: Seq<u8>) -> bool {
    forall|i: int| 0 <= i < s.len() ==> is_digit(#[trigger] s[i])
}

/// The number that a string of decimal digits denotes, most significant
/// digit first.
pub open spec fn digits_value(s: Seq<u8>) -> nat
    decreases s.len(),
{
    if s.len() == 0 {
        0
    } else {
        digits_value(s.drop_last()) * 10 + (s.last() - 48) as nat
    }
}

/// The header text without one leading `+`, if it has one.
pub open spec fn without_sign(text: Seq<u8>) -> Seq<u8> {
    if text.len() > 0 && text[0] == 43 {
        text.subrange(1, text.len() as int)
    } else {
        text
    }
}

/// The length that a header value declares: an optional `+`, then one or
/// more decimal digits and nothing else, denoting a number that fits in 64
/// bits. Any other text declares nothing.
pub open spec fn declared_length(text: Seq<u8>) -> Option<u64> {
    let d = without_sign(text);
    if d.len() > 0 && all_digits(d) && digits_value(d) <= u64::MAX {
        Some(digits_value(d) as u64)
    } else {
        None
    }
}

/// What a probe yields: the declared length of the header value, or nothing
/// when there was no response or no header.
pub open spec fn probed_size(header: Option<Seq<u8>>) -> Option<u64> {
    match header {
        Some(text) => declared_length(text),
        None => None,
    }
}

/// The mode that a probe result selects.
pub open spec fn mode_for(size: Option<u64>) -> TransferMode {
    match size {
        Some(total) => TransferMode::Sized(total),
        None => TransferMode::Unknown,
    }
}

/// A longer digit string denotes at least what its prefix denotes.
proof fn lemma_prefix_value_le(s: Seq<u8>, k: int)
    requires
        0 <= k <= s.len(),
    ensures
        digits_value(s.subrange(0, k)) <= digits_value(s),
    decreases s.len() - k,
{
    if k == s.len() {
        assert(s.subrange(0, k) =~= s);
    } else {
        lemma_prefix_value_le(s, k + 1);
        let longer = s.subrange(0, k + 1);
        assert(longer.drop_last() =~= s.subrange(0, k));
    }
}

/// Reads the raw bytes of a `Content-Length` header value. Bytes that are
/// not text need no test of their own: a value with any byte other than a
/// digit or the one leading `+` declares nothing.
pub fn parse_content_length(value: &[u8]) -> (size: Option<u64>)
    ensures
        size == declared_length(value@),
{
    let n: usize = value.len();
    let start: usize = if n > 0 && value[0] == 43 { 1 } else { 0 };
    let ghost d = without_sign(value@);
    if start == n {
        return None;
    }
    let mut acc: u64 = 0;
    let mut i: usize = start;
    while i < n
        invariant
            start <= i <= n,
            n == value@.len(),
            d == value@.subrange(start as int, n as int),
            d == without_sign(value@),
            all_digits(d.subrange(0, i - start)),
            acc == digits_value(d.subrange(0, i - start)),
        decreases n - i,
    {
        let b: u8 = value[i];
        let ghost seen = d.subrange(0, i - start);
        let ghost next = d.subrange(0, i - start + 1);
        proof {
            assert(next.drop_last() =~= seen);
            assert(next.last() == b);
        }
        if b < 48 || b > 57 {
            proof {
                assert(!is_digit(d[i - start]));
            }
            return None;
        }
        let digit: u64 = (b - 48) as u64;
        if acc > (u64::MAX - digit) / 10 {
            proof {
                assert(digits_value(next) > u64::MAX);
                lemma_prefix_value_le(d, i - start + 1);
            }
            return None;
        }
        acc = acc * 10 + digit;
        proof {
            assert forall|j: int| 0 <= j < next.len() implies is_digit(#[trigger] next[j]) by {
                if j < seen.len() {
                    assert(next[j] == seen[j]);
                }
            }
        }
        i = i + 1;
    }
    proof {
        assert(d.subrange(0, n - start) =~= d);
    }
    Some(acc)
}

/// The total size that a probe found. `header` is the raw value of the
/// response's `Content-Length` header, or `None` when the request failed,
/// timed out or the response carried no such header.
pub fn get_file_size(header: Option<&[u8]>) -> (size: Option<u64>)
    ensures
        size == probed_size(
            match header {
                Some(text) => Some(text@),
                None => None,
            },
        ),
        header.is_none() ==> size.is_none(),
{
    match header {
        Some(text) => parse_content_length(text),
        None => None,
    }
}

/// Chooses the transfer mode for the whole run from the probe result.
pub fn select_mode(size: Option<u64>) -> (mode: TransferMode)
    ensures
        mode == mode_for(size),
{
    match size {
        Some(total) => TransferMode::Sized(total),
        None => TransferMode::Unknown,
    }
}

} // verus!
