//! Binary wire primitives of the macro file format, a subset of the concise
//! binary object representation: unsigned integers, byte strings, text
//! strings, arrays and booleans, each a header byte with a length or value
//! argument. The writer always emits the shortest argument form; the reader
//! accepts every definite-length form.

use vstd::prelude::*;
use vstd::utf8::{decode_utf8, encode_utf8, valid_utf8};

verus! {

pub const MAJOR_UINT: u8 = 0;
pub const MAJOR_BYTES: u8 = 2;
pub const MAJOR_TEXT: u8 = 3;
pub const MAJOR_ARRAY: u8 = 4;

/// The two argument bytes of the 16-bit header form, most significant first.
pub open spec fn be2(v: u64) -> Seq<u8> {
    seq![((v / 0x100) % 0x100) as u8, (v % 0x100) as u8]
}

/// The four argument bytes of the 32-bit header form.
pub open spec fn be4(v: u64) -> Seq<u8> {
    seq![
        ((v / 0x1000000) % 0x100) as u8,
        ((v / 0x10000) % 0x100) as u8,
        ((v / 0x100) % 0x100) as u8,
        (v % 0x100) as u8,
    ]
}

/// The eight argument bytes of the 64-bit header form.
pub open spec fn be8(v: u64) -> Seq<u8> {
    seq![
        ((v / 0x100000000000000) % 0x100) as u8,
        ((v / 0x1000000000000) % 0x100) as u8,
        ((v / 0x10000000000) % 0x100) as u8,
        ((v / 0x100000000) % 0x100) as u8,
        ((v / 0x1000000) % 0x100) as u8,
        ((v / 0x10000) % 0x100) as u8,
        ((v / 0x100) % 0x100) as u8,
        (v % 0x100) as u8,
    ]
}

/// The canonical (shortest) header for a major type and argument.
#[verifier::opaque]
pub open spec fn header_enc(major: u8, v: u64) -> Seq<u8> {
    if v < 24 {
        seq![(major * 0x20 + v) as u8]
    } else if v < 0x100 {
        seq![(major * 0x20 + 24) as u8, v as u8]
    } else if v < 0x10000 {
        seq![(major * 0x20 + 25) as u8] + be2(v)
    } else if v < 0x100000000 {
        seq![(major * 0x20 + 26) as u8] + be4(v)
    } else {
        seq![(major * 0x20 + 27) as u8] + be8(v)
    }
}

/// Parse a header at the front of `s`: the major type, the argument, and
/// how many bytes the header took. Indefinite lengths and the reserved
/// argument forms are refused.
#[verifier::opaque]
pub open spec fn sp_header(s: Seq<u8>) -> Option<(u8, u64, int)> {
    if s.len() < 1 {
        None
    } else {
        let major = s[0] / 0x20;
        let info = s[0] % 0x20;
        if info < 24 {
            Some((major, info as u64, 1))
        } else if info == 24 {
            if s.len() >= 2 {
                Some((major, s[1] as u64, 2))
            } else {
                None
            }
        } else if info == 25 {
            if s.len() >= 3 {
                Some((major, ((s[1] as int) * 0x100 + (s[2] as int)) as u64, 3))
            } else {
                None
            }
        } else if info == 26 {
            if s.len() >= 5 {
                Some(
                    (
                        major,
                        ((s[1] as int) * 0x1000000 + (s[2] as int) * 0x10000 + (s[3] as int)
                            * 0x100 + (s[4] as int)) as u64,
                        5,
                    ),
                )
            } else {
                None
            }
        } else if info == 27 {
            if s.len() >= 9 {
                Some(
                    (
                        major,
                        ((s[1] as int) * 0x100000000000000 + (s[2] as int) * 0x1000000000000 + (
                        s[3] as int) * 0x10000000000 + (s[4] as int) * 0x100000000 + (
                        s[5] as int) * 0x1000000 + (s[6] as int) * 0x10000 + (s[7] as int) * 0x100
                            + (s[8] as int)) as u64,
                        9,
                    ),
                )
            } else {
                None
            }
        } else {
            None
        }
    }
}

/// The canonical header parses back to what it was written for, whatever
/// follows it.
pub proof fn lemma_header_round_trip(major: u8, v: u64, rest: Seq<u8>)
    requires
        major <= 7,
    ensures
        sp_header(header_enc(major, v) + rest) == Some(
            (major, v, header_enc(major, v).len() as int),
        ),
        header_enc(major, v).len() <= 9,
{
    reveal(header_enc);
    reveal(sp_header);
    let h = header_enc(major, v);
    let s = h + rest;
    if v < 24 {
        assert(s[0] == (major * 0x20 + v) as u8);
        assert((major * 0x20 + v as u8) / 0x20 == major && (major * 0x20 + v as u8) % 0x20
            == v) by (bit_vector)
            requires
                major <= 7 && v < 24,
        ;
    } else if v < 0x100 {
        assert(s[0] == (major * 0x20 + 24) as u8 && s[1] == v as u8);
        assert((major * 0x20 + 24) / 0x20 == major && (major * 0x20 + 24) % 0x20
            == 24) by (bit_vector)
            requires
                major <= 7,
        ;
    } else if v < 0x10000 {
        assert(s[0] == (major * 0x20 + 25) as u8 && s[1] == ((v / 0x100) % 0x100) as u8 && s[2] == (
        v % 0x100) as u8);
        assert((major * 0x20 + 25) / 0x20 == major && (major * 0x20 + 25) % 0x20
            == 25) by (bit_vector)
            requires
                major <= 7,
        ;
        assert(((v / 0x100) % 0x100) * 0x100 + (v % 0x100) == v) by (bit_vector)
            requires
                v < 0x10000,
        ;
    } else if v < 0x100000000 {
        assert(s[0] == (major * 0x20 + 26) as u8 && s[1] == ((v / 0x1000000) % 0x100) as u8 && s[2]
            == ((v / 0x10000) % 0x100) as u8 && s[3] == ((v / 0x100) % 0x100) as u8 && s[4] == (v
            % 0x100) as u8);
        assert((major * 0x20 + 26) / 0x20 == major && (major * 0x20 + 26) % 0x20
            == 26) by (bit_vector)
            requires
                major <= 7,
        ;
        assert(((v / 0x1000000) % 0x100) * 0x1000000 + ((v / 0x10000) % 0x100) * 0x10000 + ((v
            / 0x100) % 0x100) * 0x100 + (v % 0x100) == v) by (bit_vector)
            requires
                v < 0x100000000,
        ;
    } else {
        assert(s[0] == (major * 0x20 + 27) as u8 && s[1] == ((v / 0x100000000000000) % 0x100) as u8
            && s[2] == ((v / 0x1000000000000) % 0x100) as u8 && s[3] == ((v / 0x10000000000)
            % 0x100) as u8 && s[4] == ((v / 0x100000000) % 0x100) as u8 && s[5] == ((v / 0x1000000)
            % 0x100) as u8 && s[6] == ((v / 0x10000) % 0x100) as u8 && s[7] == ((v / 0x100)
            % 0x100) as u8 && s[8] == (v % 0x100) as u8);
        assert((major * 0x20 + 27) / 0x20 == major && (major * 0x20 + 27) % 0x20
            == 27) by (bit_vector)
            requires
                major <= 7,
        ;
        assert(((v / 0x100000000000000) % 0x100) * 0x100000000000000 + ((v / 0x1000000000000)
            % 0x100) * 0x1000000000000 + ((v / 0x10000000000) % 0x100) * 0x10000000000 + ((v
            / 0x100000000) % 0x100) * 0x100000000 + ((v / 0x1000000) % 0x100) * 0x1000000 + ((v
            / 0x10000) % 0x100) * 0x10000 + ((v / 0x100) % 0x100) * 0x100 + (v % 0x100)
            == v) by (bit_vector);
    }
}

/// Append the canonical header for a major type and argument.
pub fn emit_header(out: &mut Vec<u8>, major: u8, v: u64)
    requires
        major <= 7,
    ensures
        final(out)@ == old(out)@ + header_enc(major, v),
{
    proof {
        reveal(header_enc);
    }
    let ghost pre = out@;
    if v < 24 {
        out.push(major * 0x20 + (v as u8));
        proof {
            assert(out@ =~= pre + header_enc(major, v));
        }
    } else if v < 0x100 {
        out.push(major * 0x20 + 24);
        out.push(v as u8);
        proof {
            assert(out@ =~= pre + header_enc(major, v));
        }
    } else if v < 0x10000 {
        out.push(major * 0x20 + 25);
        out.push(((v / 0x100) % 0x100) as u8);
        out.push((v % 0x100) as u8);
        proof {
            assert(out@ =~= pre + header_enc(major, v));
        }
    } else if v < 0x100000000 {
        out.push(major * 0x20 + 26);
        out.push(((v / 0x1000000) % 0x100) as u8);
        out.push(((v / 0x10000) % 0x100) as u8);
        out.push(((v / 0x100) % 0x100) as u8);
        out.push((v % 0x100) as u8);
        proof {
            assert(out@ =~= pre + header_enc(major, v));
        }
    } else {
        out.push(major * 0x20 + 27);
        out.push(((v / 0x100000000000000) % 0x100) as u8);
        out.push(((v / 0x1000000000000) % 0x100) as u8);
        out.push(((v / 0x10000000000) % 0x100) as u8);
        out.push(((v / 0x100000000) % 0x100) as u8);
        out.push(((v / 0x1000000) % 0x100) as u8);
        out.push(((v / 0x10000) % 0x100) as u8);
        out.push(((v / 0x100) % 0x100) as u8);
        out.push((v % 0x100) as u8);
        proof {
            assert(out@ =~= pre + header_enc(major, v));
        }
    }
}

/// Read a header at `pos`. `None` means the bytes do not form a header the
/// library accepts.
pub fn read_header(buf: &Vec<u8>, pos: usize) -> (r: Option<(u8, u64, usize)>)
    requires
        pos <= buf@.len(),
    ensures
        (match r {
            Some((major, v, np)) => {
                &&& pos < np <= buf@.len()
                &&& sp_header(buf@.skip(pos as int)) == Some((major, v, np - pos))
                &&& major <= 7
            },
            None => sp_header(buf@.skip(pos as int)) is None,
        }),
{
    proof {
        reveal(sp_header);
    }
    let ghost s = buf@.skip(pos as int);
    if pos >= buf.len() {
        return None;
    }
    let b = buf[pos];
    let major = b / 0x20;
    let info = b % 0x20;
    proof {
        assert(s[0] == buf@[pos as int]);
        assert(b / 0x20 <= 7) by (bit_vector);
    }
    if info < 24 {
        Some((major, info as u64, pos + 1))
    } else if info == 24 {
        if buf.len() - pos >= 2 {
            let v = buf[pos + 1] as u64;
            proof {
                assert(s[1] == buf@[pos + 1]);
            }
            Some((major, v, pos + 2))
        } else {
            None
        }
    } else if info == 25 {
        if buf.len() - pos >= 3 {
            let v = (buf[pos + 1] as u64) * 0x100 + (buf[pos + 2] as u64);
            proof {
                assert(s[1] == buf@[pos + 1] && s[2] == buf@[pos + 2]);
            }
            Some((major, v, pos + 3))
        } else {
            None
        }
    } else if info == 26 {
        if buf.len() - pos >= 5 {
            let v = (buf[pos + 1] as u64) * 0x1000000 + (buf[pos + 2] as u64) * 0x10000 + (buf[pos
                + 3] as u64) * 0x100 + (buf[pos + 4] as u64);
            proof {
                assert(s[1] == buf@[pos + 1] && s[2] == buf@[pos + 2] && s[3] == buf@[pos + 3]
                    && s[4] == buf@[pos + 4]);
            }
            Some((major, v, pos + 5))
        } else {
            None
        }
    } else if info == 27 {
        if buf.len() - pos >= 9 {
            let b1 = buf[pos + 1] as u64;
            let b2 = buf[pos + 2] as u64;
            let b3 = buf[pos + 3] as u64;
            let b4 = buf[pos + 4] as u64;
            let b5 = buf[pos + 5] as u64;
            let b6 = buf[pos + 6] as u64;
            let b7 = buf[pos + 7] as u64;
            let b8 = buf[pos + 8] as u64;
            proof {
                assert(s[1] == buf@[pos + 1] && s[2] == buf@[pos + 2] && s[3] == buf@[pos + 3]
                    && s[4] == buf@[pos + 4] && s[5] == buf@[pos + 5] && s[6] == buf@[pos + 6]
                    && s[7] == buf@[pos + 7] && s[8] == buf@[pos + 8]);
                assert(b1 * 0x100000000000000 + b2 * 0x1000000000000 + b3 * 0x10000000000 + b4
                    * 0x100000000 + b5 * 0x1000000 + b6 * 0x10000 + b7 * 0x100 + b8
                    <= 0xffffffffffffffff) by (bit_vector)
                    requires
                        b1 < 0x100 && b2 < 0x100 && b3 < 0x100 && b4 < 0x100 && b5 < 0x100 && b6
                            < 0x100 && b7 < 0x100 && b8 < 0x100,
                ;
            }
            let v = b1 * 0x100000000000000 + b2 * 0x1000000000000 + b3 * 0x10000000000 + b4
                * 0x100000000 + b5 * 0x1000000 + b6 * 0x10000 + b7 * 0x100 + b8;
            Some((major, v, pos + 9))
        } else {
            None
        }
    } else {
        None
    }
}

/// An unsigned integer item.
pub open spec fn uint_enc(v: u64) -> Seq<u8> {
    header_enc(MAJOR_UINT, v)
}

pub open spec fn sp_uint(s: Seq<u8>) -> Option<(u64, int)> {
    match sp_header(s) {
        Some((major, v, n)) => if major == MAJOR_UINT {
            Some((v, n))
        } else {
            None
        },
        None => None,
    }
}

pub proof fn lemma_uint_round_trip(v: u64, rest: Seq<u8>)
    ensures
        sp_uint(uint_enc(v) + rest) == Some((v, uint_enc(v).len() as int)),
        uint_enc(v).len() <= 9,
{
    lemma_header_round_trip(MAJOR_UINT, v, rest);
}

/// A byte-string item: header, then the bytes themselves.
pub open spec fn bytes_enc(b: Seq<u8>) -> Seq<u8> {
    header_enc(MAJOR_BYTES, b.len() as u64) + b
}

pub open spec fn sp_bytes(s: Seq<u8>) -> Option<(Seq<u8>, int)> {
    match sp_header(s) {
        Some((major, len, h)) => if major == MAJOR_BYTES && s.len() >= h + len {
            Some((s.subrange(h, h + len), h + len))
        } else {
            None
        },
        None => None,
    }
}

pub proof fn lemma_bytes_round_trip(b: Seq<u8>, rest: Seq<u8>)
    requires
        b.len() < 0x10000000000000000,
    ensures
        sp_bytes(bytes_enc(b) + rest) == Some((b, bytes_enc(b).len() as int)),
{
    let len = b.len() as u64;
    let h = header_enc(MAJOR_BYTES, len);
    assert((h + b) + rest =~= h + (b + rest));
    lemma_header_round_trip(MAJOR_BYTES, len, b + rest);
    let s = bytes_enc(b) + rest;
    assert(s.subrange(h.len() as int, h.len() + len) =~= b);
}

/// A text item: header, then the UTF-8 bytes of the characters.
pub open spec fn text_enc(cs: Seq<char>) -> Seq<u8> {
    header_enc(MAJOR_TEXT, encode_utf8(cs).len() as u64) + encode_utf8(cs)
}

pub open spec fn sp_text(s: Seq<u8>) -> Option<(Seq<char>, int)> {
    match sp_header(s) {
        Some((major, len, h)) => if major == MAJOR_TEXT && s.len() >= h + len && valid_utf8(
            s.subrange(h, h + len),
        ) {
            Some((decode_utf8(s.subrange(h, h + len)), h + len))
        } else {
            None
        },
        None => None,
    }
}

pub proof fn lemma_text_round_trip(cs: Seq<char>, rest: Seq<u8>)
    requires
        encode_utf8(cs).len() < 0x10000000000000000,
    ensures
        sp_text(text_enc(cs) + rest) == Some((cs, text_enc(cs).len() as int)),
{
    let bs = encode_utf8(cs);
    let len = bs.len() as u64;
    let h = header_enc(MAJOR_TEXT, len);
    assert((h + bs) + rest =~= h + (bs + rest));
    lemma_header_round_trip(MAJOR_TEXT, len, bs + rest);
    let s = text_enc(cs) + rest;
    assert(s.subrange(h.len() as int, h.len() + len) =~= bs);
    vstd::utf8::encode_utf8_valid_utf8(cs);
    vstd::utf8::encode_utf8_decode_utf8(cs);
}

/// A boolean item: one of the two simple values.
pub open spec fn bool_enc(b: bool) -> Seq<u8> {
    if b {
        seq![0xf5u8]
    } else {
        seq![0xf4u8]
    }
}

pub open spec fn sp_bool(s: Seq<u8>) -> Option<(bool, int)> {
    if s.len() >= 1 {
        if s[0] == 0xf4 {
            Some((false, 1))
        } else if s[0] == 0xf5 {
            Some((true, 1))
        } else {
            None
        }
    } else {
        None
    }
}

pub proof fn lemma_bool_round_trip(b: bool, rest: Seq<u8>)
    ensures
        sp_bool(bool_enc(b) + rest) == Some((b, 1int)),
{
}

pub fn emit_uint(out: &mut Vec<u8>, v: u64)
    ensures
        final(out)@ == old(out)@ + uint_enc(v),
{
    emit_header(out, MAJOR_UINT, v);
}

pub fn emit_bytes(out: &mut Vec<u8>, b: &Vec<u8>)
    ensures
        final(out)@ == old(out)@ + bytes_enc(b@),
        b@.len() < 0x10000000000000000,
{
    let ghost pre = out@;
    emit_header(out, MAJOR_BYTES, b.len() as u64);
    out.extend_from_slice(b.as_slice());
    proof {
        assert(out@ =~= pre + bytes_enc(b@));
    }
}

pub fn emit_text(out: &mut Vec<u8>, s: &str)
    ensures
        final(out)@ == old(out)@ + text_enc(s@),
        encode_utf8(s@).len() < 0x10000000000000000,
{
    let ghost pre = out@;
    let bv = s.as_bytes_vec();
    emit_header(out, MAJOR_TEXT, bv.len() as u64);
    out.extend_from_slice(bv.as_slice());
    proof {
        assert(out@ =~= pre + text_enc(s@));
    }
}

pub fn emit_bool(out: &mut Vec<u8>, b: bool)
    ensures
        final(out)@ == old(out)@ + bool_enc(b),
{
    let ghost pre = out@;
    if b {
        out.push(0xf5);
    } else {
        out.push(0xf4);
    }
    proof {
        assert(out@ =~= pre + bool_enc(b));
    }
}

pub fn read_uint(buf: &Vec<u8>, pos: usize) -> (r: Option<(u64, usize)>)
    requires
        pos <= buf@.len(),
    ensures
        (match r {
            Some((v, np)) => pos < np <= buf@.len() && sp_uint(buf@.skip(pos as int)) == Some(
                (v, np - pos),
            ),
            None => sp_uint(buf@.skip(pos as int)) is None,
        }),
{
    match read_header(buf, pos) {
        Some((major, v, np)) => {
            if major == MAJOR_UINT {
                Some((v, np))
            } else {
                None
            }
        },
        None => None,
    }
}

pub fn read_bytes(buf: &Vec<u8>, pos: usize) -> (r: Option<(Vec<u8>, usize)>)
    requires
        pos <= buf@.len(),
    ensures
        (match r {
            Some((v, np)) => pos < np <= buf@.len() && sp_bytes(buf@.skip(pos as int)) == Some(
                (v@, np - pos),
            ),
            None => sp_bytes(buf@.skip(pos as int)) is None,
        }),
{
    let ghost s = buf@.skip(pos as int);
    match read_header(buf, pos) {
        Some((major, len, np)) => {
            if major != MAJOR_BYTES {
                return None;
            }
            if len > (buf.len() - np) as u64 {
                proof {
                    assert(s.len() < (np - pos) + len);
                }
                return None;
            }
            let end = np + (len as usize);
            let v = vstd::slice::slice_to_vec(
                vstd::slice::slice_subrange(buf.as_slice(), np, end),
            );
            proof {
                assert(v@ =~= s.subrange(np - pos, np - pos + len));
            }
            Some((v, end))
        },
        None => None,
    }
}

/// Relies on `String::from_utf8`: it succeeds exactly on valid UTF-8 input
/// and returns the string holding those bytes.
#[verifier::external_body]
fn bytes_to_string(v: Vec<u8>) -> (r: Option<String>)
    ensures
        (match r {
            Some(s) => valid_utf8(v@) && s@ == decode_utf8(v@),
            None => !valid_utf8(v@),
        }),
{
    String::from_utf8(v).ok()
}

pub fn read_text(buf: &Vec<u8>, pos: usize) -> (r: Option<(String, usize)>)
    requires
        pos <= buf@.len(),
    ensures
        (match r {
            Some((v, np)) => pos < np <= buf@.len() && sp_text(buf@.skip(pos as int)) == Some(
                (v@, np - pos),
            ),
            None => sp_text(buf@.skip(pos as int)) is None,
        }),
{
    let ghost s = buf@.skip(pos as int);
    match read_header(buf, pos) {
        Some((major, len, np)) => {
            if major != MAJOR_TEXT {
                return None;
            }
            if len > (buf.len() - np) as u64 {
                proof {
                    assert(s.len() < (np - pos) + len);
                }
                return None;
            }
            let end = np + (len as usize);
            let v = vstd::slice::slice_to_vec(
                vstd::slice::slice_subrange(buf.as_slice(), np, end),
            );
            proof {
                assert(v@ =~= s.subrange(np - pos, np - pos + len));
            }
            match bytes_to_string(v) {
                Some(text) => Some((text, end)),
                None => None,
            }
        },
        None => None,
    }
}

pub fn read_bool(buf: &Vec<u8>, pos: usize) -> (r: Option<(bool, usize)>)
    requires
        pos <= buf@.len(),
    ensures
        (match r {
            Some((v, np)) => pos < np <= buf@.len() && sp_bool(buf@.skip(pos as int)) == Some(
                (v, np - pos),
            ),
            None => sp_bool(buf@.skip(pos as int)) is None,
        }),
{
    let ghost s = buf@.skip(pos as int);
    if pos >= buf.len() {
        return None;
    }
    let b = buf[pos];
    proof {
        assert(s[0] == buf@[pos as int]);
    }
    if b == 0xf4 {
        Some((false, pos + 1))
    } else if b == 0xf5 {
        Some((true, pos + 1))
    } else {
        None
    }
}

} // verus!
