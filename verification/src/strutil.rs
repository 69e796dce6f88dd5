//! Small verified string helpers: equality of string slices and the decimal
//! parsing that the numeric text inputs rely on.

use vstd::prelude::*;
use vstd::slice::*;
use vstd::string::*;

verus! {

/// Whether two string slices hold the same characters.
///
/// Compares the UTF-8 bytes; equal byte strings decode to equal character
/// sequences and unequal ones cannot encode the same sequence.
pub fn str_eq(a: &str, b: &str) -> (r: bool)
    ensures
        r == (a@ == b@),
{
    proof {
        vstd::utf8::encode_utf8_decode_utf8(a@);
        vstd::utf8::encode_utf8_decode_utf8(b@);
    }
    let ab = a.as_bytes();
    let bb = b.as_bytes();
    if ab.len() != bb.len() {
        return false;
    }
    let n = ab.len();
    let mut i: usize = 0;
    while i < n
        invariant
            n == ab@.len() && n == bb@.len(),
            i <= n,
            ab@ == a.spec_bytes() && bb@ == b.spec_bytes(),
            forall|j: int| 0 <= j < i ==> ab@[j] == bb@[j],
        decreases n - i,
    {
        if *slice_index_get(ab, i) != *slice_index_get(bb, i) {
            assert(ab@ != bb@);
            return false;
        }
        i += 1;
    }
    assert(ab@ =~= bb@);
    true
}

/// The ASCII code of a decimal digit.
pub open spec fn is_digit_byte(b: u8) -> bool {
    0x30 <= b <= 0x39
}

pub open spec fn all_digits(bs: Seq<u8>) -> bool {
    forall|i: int| 0 <= i < bs.len() ==> is_digit_byte(#[trigger] bs[i])
}

/// The number a sequence of decimal digit bytes denotes.
pub open spec fn dec_val(bs: Seq<u8>) -> nat
    decreases bs.len(),
{
    if bs.len() == 0 {
        0
    } else {
        (dec_val(bs.drop_last()) * 10 + (bs.last() - 0x30)) as nat
    }
}

/// The digit part of a numeral: everything after one optional leading `+`.
pub open spec fn numeral_body(bs: Seq<u8>) -> Seq<u8> {
    if bs.len() > 0 && bs[0] == 0x2b {
        bs.drop_first()
    } else {
        bs
    }
}

/// What `str::parse::<u64>` accepts and returns: an optional `+`, then at
/// least one digit, with a value that fits the type.
pub open spec fn parse_u64_spec(bs: Seq<u8>) -> Option<u64> {
    let body = numeral_body(bs);
    if body.len() > 0 && all_digits(body) && dec_val(body) <= u64::MAX {
        Some(dec_val(body) as u64)
    } else {
        None
    }
}

pub open spec fn parse_u32_spec(bs: Seq<u8>) -> Option<u32> {
    let body = numeral_body(bs);
    if body.len() > 0 && all_digits(body) && dec_val(body) <= u32::MAX {
        Some(dec_val(body) as u32)
    } else {
        None
    }
}

/// Appending digits never shrinks the value a numeral denotes.
proof fn lemma_dec_val_prefix(bs: Seq<u8>, i: int)
    requires
        0 <= i <= bs.len(),
        all_digits(bs),
    ensures
        dec_val(bs) >= dec_val(bs.take(i)),
    decreases bs.len() - i,
{
    if i < bs.len() {
        lemma_dec_val_prefix(bs, i + 1);
        assert(bs.take(i + 1).drop_last() =~= bs.take(i));
        assert(bs.take(i + 1).last() == bs[i]);
        assert(is_digit_byte(bs[i]));
        assert(dec_val(bs.take(i + 1)) == dec_val(bs.take(i)) * 10 + (bs.take(i + 1).last()
            - 0x30));
    } else {
        assert(bs.take(i) =~= bs);
    }
}

/// Parse an unsigned decimal numeral from UTF-8 bytes, exactly as
/// `str::parse::<u64>` would.
pub fn parse_u64_bytes(bs: &[u8]) -> (r: Option<u64>)
    ensures
        r == parse_u64_spec(bs@),
{
    let n = bs.len();
    let mut start: usize = 0;
    if n > 0 && *slice_index_get(bs, 0) == 0x2b {
        start = 1;
    }
    proof {
        assert(bs@.skip(start as int) =~= numeral_body(bs@));
    }
    if start == n {
        return None;
    }
    let mut i: usize = start;
    let mut acc: u64 = 0;
    while i < n
        invariant
            start <= i <= n,
            n == bs@.len(),
            start < n,
            (start == 1 && bs@[0] == 0x2b) || start == 0,
            bs@.skip(start as int) == numeral_body(bs@),
            all_digits(bs@.subrange(start as int, i as int)),
            acc == dec_val(bs@.subrange(start as int, i as int)),
        decreases n - i,
    {
        let b = *slice_index_get(bs, i);
        if b < 0x30 || b > 0x39 {
            proof {
                let body = numeral_body(bs@);
                assert(body[i - start] == bs@[i as int]);
                assert(!is_digit_byte(body[i - start]));
            }
            return None;
        }
        let d: u64 = (b - 0x30) as u64;
        proof {
            assert(bs@.subrange(start as int, i + 1).drop_last() =~= bs@.subrange(
                start as int,
                i as int,
            ));
        }
        let acc10 = match acc.checked_mul(10) {
            Some(v) => v,
            None => {
                proof {
                    overflow_case(bs@, start as int, i as int, acc, d);
                }
                return None;
            },
        };
        let acc2 = match acc10.checked_add(d) {
            Some(v) => v,
            None => {
                proof {
                    overflow_case(bs@, start as int, i as int, acc, d);
                }
                return None;
            },
        };
        acc = acc2;
        i += 1;
    }
    proof {
        assert(bs@.subrange(start as int, n as int) =~= numeral_body(bs@));
    }
    Some(acc)
}

/// When one more digit pushes the accumulated value past `u64::MAX`, the
/// whole numeral is out of range.
proof fn overflow_case(bs: Seq<u8>, start: int, i: int, acc: u64, d: u64)
    requires
        0 <= start <= i < bs.len(),
        acc == dec_val(bs.subrange(start, i)),
        is_digit_byte(bs[i]),
        d == bs[i] - 0x30,
        acc * 10 + d > u64::MAX,
        bs.skip(start) == numeral_body(bs),
    ensures
        parse_u64_spec(bs) is None,
{
    let body = numeral_body(bs);
    if all_digits(body) {
        assert(body.take(i - start + 1).drop_last() =~= body.take(i - start));
        assert(body.take(i - start) =~= bs.subrange(start, i));
        assert(body.take(i - start + 1).last() == bs[i]);
        assert(dec_val(body.take(i - start + 1)) == acc * 10 + d);
        lemma_dec_val_prefix(body, i - start + 1);
    }
}

/// Parse an unsigned decimal numeral as `str::parse::<u32>` would.
pub fn parse_u32_bytes(bs: &[u8]) -> (r: Option<u32>)
    ensures
        r == parse_u32_spec(bs@),
{
    match parse_u64_bytes(bs) {
        Some(v) => {
            if v <= 0xffff_ffff {
                Some(v as u32)
            } else {
                None
            }
        },
        None => {
            proof {
                let body = numeral_body(bs@);
                if body.len() > 0 && all_digits(body) && dec_val(body) <= u32::MAX {
                    assert(dec_val(body) <= u64::MAX);
                }
            }
            None
        },
    }
}

/// Parse a string slice as `str::parse::<u64>` would.
pub fn parse_u64_str(s: &str) -> (r: Option<u64>)
    ensures
        r == parse_u64_spec(s.spec_bytes()),
{
    parse_u64_bytes(s.as_bytes())
}

/// Parse a string slice as `str::parse::<u32>` would.
pub fn parse_u32_str(s: &str) -> (r: Option<u32>)
    ensures
        r == parse_u32_spec(s.spec_bytes()),
{
    parse_u32_bytes(s.as_bytes())
}

} // verus!
