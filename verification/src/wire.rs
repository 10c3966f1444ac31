//! Primitive field codecs of the binary form: fixed-width little-endian
//! integers, single bytes, length-prefixed buffers, strings and lists, plus
//! the conversion between strings and their UTF-8 bytes that the text form
//! shares.  Every parser is specified by a total function on byte sequences,
//! and every encoder's output parses back to what was encoded.

use vstd::prelude::*;
use vstd::utf8::valid_utf8;
use vstd::utf8::decode_utf8;
use vstd::utf8::encode_utf8;
use vstd::utf8::encode_utf8_valid_utf8;
use vstd::utf8::encode_utf8_decode_utf8;
use vstd::slice::slice_subrange;
use vstd::slice::slice_to_vec;
use crate::QosError;
use crate::props::Property;
use crate::props::Properties;
use crate::props::PropView;

verus! {

// ---------------------------------------------------------------------------
// Two's-complement and widening conversions.
// ---------------------------------------------------------------------------

pub open spec fn spec_i64_to_u64(v: i64) -> u64 {
    if v >= 0 {
        v as u64
    } else {
        ((v as int) + 0x1_0000_0000_0000_0000) as u64
    }
}

pub open spec fn spec_u64_to_i64(u: u64) -> i64 {
    if u < 0x8000_0000_0000_0000 {
        u as i64
    } else {
        ((u as int) - 0x1_0000_0000_0000_0000) as i64
    }
}

pub(crate) fn i64_to_u64(v: i64) -> (r: u64)
    ensures
        r == spec_i64_to_u64(v),
{
    if v >= 0 {
        v as u64
    } else {
        ((v as i128) + 0x1_0000_0000_0000_0000i128) as u64
    }
}

pub(crate) fn u64_to_i64(u: u64) -> (r: i64)
    ensures
        r == spec_u64_to_i64(u),
{
    if u < 0x8000_0000_0000_0000 {
        u as i64
    } else {
        ((u as i128) - 0x1_0000_0000_0000_0000i128) as i64
    }
}

// ---------------------------------------------------------------------------
// Little-endian 64-bit integers.
// ---------------------------------------------------------------------------

pub open spec fn enc_u64(v: u64) -> Seq<u8> {
    seq![
        (v & 0xff) as u8,
        ((v >> 8) & 0xff) as u8,
        ((v >> 16) & 0xff) as u8,
        ((v >> 24) & 0xff) as u8,
        ((v >> 32) & 0xff) as u8,
        ((v >> 40) & 0xff) as u8,
        ((v >> 48) & 0xff) as u8,
        ((v >> 56) & 0xff) as u8,
    ]
}

pub open spec fn u64_of_le(
    b0: u8,
    b1: u8,
    b2: u8,
    b3: u8,
    b4: u8,
    b5: u8,
    b6: u8,
    b7: u8,
) -> u64 {
    (b0 as u64) | ((b1 as u64) << 8) | ((b2 as u64) << 16) | ((b3 as u64) << 24) | ((b4 as u64)
        << 32) | ((b5 as u64) << 40) | ((b6 as u64) << 48) | ((b7 as u64) << 56)
}

pub open spec fn sp_u64(s: Seq<u8>) -> Option<(u64, Seq<u8>)> {
    if s.len() >= 8 {
        Some((u64_of_le(s[0], s[1], s[2], s[3], s[4], s[5], s[6], s[7]), s.skip(8)))
    } else {
        None
    }
}

/// An encoded 64-bit integer parses back to itself and leaves the rest.
pub proof fn lemma_u64_round_trip(v: u64, rest: Seq<u8>)
    ensures
        sp_u64(enc_u64(v) + rest) == Some((v, rest)),
{
    let s = enc_u64(v) + rest;
    assert(s[0] == (v & 0xff) as u8);
    assert(s[1] == ((v >> 8) & 0xff) as u8);
    assert(s[2] == ((v >> 16) & 0xff) as u8);
    assert(s[3] == ((v >> 24) & 0xff) as u8);
    assert(s[4] == ((v >> 32) & 0xff) as u8);
    assert(s[5] == ((v >> 40) & 0xff) as u8);
    assert(s[6] == ((v >> 48) & 0xff) as u8);
    assert(s[7] == ((v >> 56) & 0xff) as u8);
    assert((((v & 0xff) as u8) as u64) | (((((v >> 8) & 0xff) as u8) as u64) << 8) | (((((v >> 16)
        & 0xff) as u8) as u64) << 16) | (((((v >> 24) & 0xff) as u8) as u64) << 24) | (((((v >> 32)
        & 0xff) as u8) as u64) << 32) | (((((v >> 40) & 0xff) as u8) as u64) << 40) | (((((v >> 48)
        & 0xff) as u8) as u64) << 48) | (((((v >> 56) & 0xff) as u8) as u64) << 56) == v)
        by (bit_vector);
    assert(s.skip(8) =~= rest);
}

pub(crate) fn write_u64(out: &mut Vec<u8>, v: u64)
    ensures
        final(out)@ == old(out)@ + enc_u64(v),
{
    proof {
        assert((v & 0xff) < 256 && ((v >> 8) & 0xff) < 256 && ((v >> 16) & 0xff) < 256 && ((v
            >> 24) & 0xff) < 256 && ((v >> 32) & 0xff) < 256 && ((v >> 40) & 0xff) < 256 && ((v
            >> 48) & 0xff) < 256 && ((v >> 56) & 0xff) < 256) by (bit_vector);
    }
    let ghost prev = out@;
    out.push((v & 0xff) as u8);
    out.push(((v >> 8) & 0xff) as u8);
    out.push(((v >> 16) & 0xff) as u8);
    out.push(((v >> 24) & 0xff) as u8);
    out.push(((v >> 32) & 0xff) as u8);
    out.push(((v >> 40) & 0xff) as u8);
    out.push(((v >> 48) & 0xff) as u8);
    out.push(((v >> 56) & 0xff) as u8);
    proof {
        assert(out@ =~= prev + enc_u64(v));
    }
}

pub(crate) fn read_u64(buf: &Vec<u8>, pos: usize) -> (r: Result<(u64, usize), QosError>)
    requires
        pos <= buf@.len(),
    ensures
        match r {
            Ok((v, p2)) => pos <= p2 <= buf@.len() && sp_u64(buf@.skip(pos as int)) == Some(
                (v, buf@.skip(p2 as int)),
            ),
            Err(e) => e == QosError::SerializationError && sp_u64(buf@.skip(pos as int)) is None,
        },
{
    if buf.len() - pos < 8 {
        return Err(QosError::SerializationError);
    }
    let b0 = buf[pos];
    let b1 = buf[pos + 1];
    let b2 = buf[pos + 2];
    let b3 = buf[pos + 3];
    let b4 = buf[pos + 4];
    let b5 = buf[pos + 5];
    let b6 = buf[pos + 6];
    let b7 = buf[pos + 7];
    let v = (b0 as u64) | ((b1 as u64) << 8) | ((b2 as u64) << 16) | ((b3 as u64) << 24) | ((
    b4 as u64) << 32) | ((b5 as u64) << 40) | ((b6 as u64) << 48) | ((b7 as u64) << 56);
    proof {
        let s = buf@.skip(pos as int);
        assert(s[0] == b0 && s[1] == b1 && s[2] == b2 && s[3] == b3 && s[4] == b4 && s[5] == b5
            && s[6] == b6 && s[7] == b7);
        assert(s.skip(8) =~= buf@.skip(pos as int + 8));
    }
    Ok((v, pos + 8))
}

// ---------------------------------------------------------------------------
// Single bytes.
// ---------------------------------------------------------------------------

pub open spec fn sp_byte(s: Seq<u8>) -> Option<(u8, Seq<u8>)> {
    if s.len() >= 1 {
        Some((s[0], s.skip(1)))
    } else {
        None
    }
}

/// A written byte parses back to itself.
pub proof fn lemma_byte_round_trip(b: u8, rest: Seq<u8>)
    ensures
        sp_byte(seq![b] + rest) == Some((b, rest)),
{
    assert((seq![b] + rest).skip(1) =~= rest);
}

pub(crate) fn write_byte(out: &mut Vec<u8>, b: u8)
    ensures
        final(out)@ == old(out)@ + seq![b],
{
    let ghost prev = out@;
    out.push(b);
    proof {
        assert(out@ =~= prev + seq![b]);
    }
}

pub(crate) fn read_byte(buf: &Vec<u8>, pos: usize) -> (r: Result<(u8, usize), QosError>)
    requires
        pos <= buf@.len(),
    ensures
        match r {
            Ok((b, p2)) => pos <= p2 <= buf@.len() && sp_byte(buf@.skip(pos as int)) == Some(
                (b, buf@.skip(p2 as int)),
            ),
            Err(e) => e == QosError::SerializationError && sp_byte(buf@.skip(pos as int)) is None,
        },
{
    if buf.len() - pos < 1 {
        return Err(QosError::SerializationError);
    }
    let b = buf[pos];
    proof {
        assert(buf@.skip(pos as int)[0] == b);
        assert(buf@.skip(pos as int).skip(1) =~= buf@.skip(pos as int + 1));
    }
    Ok((b, pos + 1))
}

// ---------------------------------------------------------------------------
// Length-prefixed byte buffers.
// ---------------------------------------------------------------------------

pub open spec fn enc_bytes(b: Seq<u8>) -> Seq<u8> {
    enc_u64(b.len() as u64) + b
}

pub open spec fn sp_bytes(s: Seq<u8>) -> Option<(Seq<u8>, Seq<u8>)> {
    match sp_u64(s) {
        Some((n, rest)) => if rest.len() >= n {
            Some((rest.take(n as int), rest.skip(n as int)))
        } else {
            None
        },
        None => None,
    }
}

/// An encoded buffer parses back to itself and leaves the rest.
pub proof fn lemma_bytes_round_trip(b: Seq<u8>, rest: Seq<u8>)
    requires
        b.len() <= u64::MAX,
    ensures
        sp_bytes(enc_bytes(b) + rest) == Some((b, rest)),
{
    let n = b.len() as u64;
    assert(enc_bytes(b) + rest =~= enc_u64(n) + (b + rest));
    lemma_u64_round_trip(n, b + rest);
    assert((b + rest).take(n as int) =~= b);
    assert((b + rest).skip(n as int) =~= rest);
}

pub(crate) fn write_bytes(out: &mut Vec<u8>, b: &Vec<u8>)
    ensures
        final(out)@ == old(out)@ + enc_bytes(b@),
{
    let ghost prev = out@;
    write_u64(out, b.len() as u64);
    let mut copy = crate::native::clone_bytes(b);
    out.append(&mut copy);
    proof {
        assert(out@ =~= prev + enc_bytes(b@));
    }
}

pub(crate) fn read_bytes(buf: &Vec<u8>, pos: usize) -> (r: Result<(Vec<u8>, usize), QosError>)
    requires
        pos <= buf@.len(),
    ensures
        match r {
            Ok((v, p2)) => pos <= p2 <= buf@.len() && sp_bytes(buf@.skip(pos as int)) == Some(
                (v@, buf@.skip(p2 as int)),
            ),
            Err(e) => e == QosError::SerializationError && sp_bytes(buf@.skip(pos as int)) is None,
        },
{
    let (n, p) = match read_u64(buf, pos) {
        Ok(v) => v,
        Err(e) => {
            return Err(e);
        },
    };
    if n > (buf.len() - p) as u64 {
        return Err(QosError::SerializationError);
    }
    let len = n as usize;
    let v = slice_to_vec(slice_subrange(buf.as_slice(), p, p + len));
    proof {
        let s = buf@.skip(pos as int);
        let rest = buf@.skip(p as int);
        assert(rest.take(n as int) =~= buf@.subrange(p as int, p as int + n as int));
        assert(rest.skip(n as int) =~= buf@.skip(p as int + n as int));
    }
    Ok((v, p + len))
}

// ---------------------------------------------------------------------------
// Length-prefixed UTF-8 strings.
// ---------------------------------------------------------------------------

/// Relies on String::from_utf8: it accepts exactly the byte sequences that
/// are valid UTF-8 and returns the string whose characters those bytes
/// encode.
#[verifier::external_body]
pub(crate) fn string_from_utf8(bytes: Vec<u8>) -> (r: Option<String>)
    ensures
        match r {
            Some(s) => valid_utf8(bytes@) && s@ == decode_utf8(bytes@),
            None => !valid_utf8(bytes@),
        },
{
    String::from_utf8(bytes).ok()
}

pub open spec fn enc_str(cs: Seq<char>) -> Seq<u8> {
    enc_bytes(encode_utf8(cs))
}

pub open spec fn sp_str(s: Seq<u8>) -> Option<(Seq<char>, Seq<u8>)> {
    match sp_bytes(s) {
        Some((b, rest)) => if valid_utf8(b) {
            Some((decode_utf8(b), rest))
        } else {
            None
        },
        None => None,
    }
}

/// An encoded string parses back to its characters and leaves the rest.
pub proof fn lemma_str_round_trip(cs: Seq<char>, rest: Seq<u8>)
    requires
        encode_utf8(cs).len() <= u64::MAX,
    ensures
        sp_str(enc_str(cs) + rest) == Some((cs, rest)),
{
    lemma_bytes_round_trip(encode_utf8(cs), rest);
    encode_utf8_valid_utf8(cs);
    encode_utf8_decode_utf8(cs);
}

pub(crate) fn write_str(out: &mut Vec<u8>, s: &String)
    ensures
        final(out)@ == old(out)@ + enc_str(s@),
{
    let ghost prev = out@;
    let b = s.as_str().as_bytes_vec();
    write_bytes(out, &b);
}

pub(crate) fn read_str(buf: &Vec<u8>, pos: usize) -> (r: Result<(String, usize), QosError>)
    requires
        pos <= buf@.len(),
    ensures
        match r {
            Ok((v, p2)) => pos <= p2 <= buf@.len() && sp_str(buf@.skip(pos as int)) == Some(
                (v@, buf@.skip(p2 as int)),
            ),
            Err(e) => e == QosError::SerializationError && sp_str(buf@.skip(pos as int)) is None,
        },
{
    let (bytes, p2) = match read_bytes(buf, pos) {
        Ok(v) => v,
        Err(e) => {
            return Err(e);
        },
    };
    match string_from_utf8(bytes) {
        Some(s) => Ok((s, p2)),
        None => Err(QosError::SerializationError),
    }
}

// ---------------------------------------------------------------------------
// Signed and narrow integers, carried as 64-bit words.
// ---------------------------------------------------------------------------

pub open spec fn enc_i64(v: i64) -> Seq<u8> {
    enc_u64(spec_i64_to_u64(v))
}

pub open spec fn sp_i64(s: Seq<u8>) -> Option<(i64, Seq<u8>)> {
    match sp_u64(s) {
        Some((u, rest)) => Some((spec_u64_to_i64(u), rest)),
        None => None,
    }
}

/// An encoded signed 64-bit value parses back to itself.
pub proof fn lemma_i64_round_trip(v: i64, rest: Seq<u8>)
    ensures
        sp_i64(enc_i64(v) + rest) == Some((v, rest)),
{
    lemma_u64_round_trip(spec_i64_to_u64(v), rest);
}

pub(crate) fn write_i64(out: &mut Vec<u8>, v: i64)
    ensures
        final(out)@ == old(out)@ + enc_i64(v),
{
    write_u64(out, i64_to_u64(v));
}

pub(crate) fn read_i64(buf: &Vec<u8>, pos: usize) -> (r: Result<(i64, usize), QosError>)
    requires
        pos <= buf@.len(),
    ensures
        match r {
            Ok((v, p2)) => pos <= p2 <= buf@.len() && sp_i64(buf@.skip(pos as int)) == Some(
                (v, buf@.skip(p2 as int)),
            ),
            Err(e) => e == QosError::SerializationError && sp_i64(buf@.skip(pos as int)) is None,
        },
{
    match read_u64(buf, pos) {
        Ok((u, p2)) => Ok((u64_to_i64(u), p2)),
        Err(e) => Err(e),
    }
}

pub open spec fn enc_i32(v: i32) -> Seq<u8> {
    enc_i64(v as i64)
}

pub open spec fn sp_i32(s: Seq<u8>) -> Option<(i32, Seq<u8>)> {
    match sp_i64(s) {
        Some((w, rest)) => if i32::MIN <= w <= i32::MAX {
            Some((w as i32, rest))
        } else {
            None
        },
        None => None,
    }
}

/// An encoded 32-bit count parses back to itself.
pub proof fn lemma_i32_round_trip(v: i32, rest: Seq<u8>)
    ensures
        sp_i32(enc_i32(v) + rest) == Some((v, rest)),
{
    lemma_i64_round_trip(v as i64, rest);
}

pub(crate) fn write_i32(out: &mut Vec<u8>, v: i32)
    ensures
        final(out)@ == old(out)@ + enc_i32(v),
{
    write_i64(out, v as i64);
}

pub(crate) fn read_i32(buf: &Vec<u8>, pos: usize) -> (r: Result<(i32, usize), QosError>)
    requires
        pos <= buf@.len(),
    ensures
        match r {
            Ok((v, p2)) => pos <= p2 <= buf@.len() && sp_i32(buf@.skip(pos as int)) == Some(
                (v, buf@.skip(p2 as int)),
            ),
            Err(e) => e == QosError::SerializationError && sp_i32(buf@.skip(pos as int)) is None,
        },
{
    match read_i64(buf, pos) {
        Ok((w, p2)) => {
            if w < i32::MIN as i64 || w > i32::MAX as i64 {
                Err(QosError::SerializationError)
            } else {
                Ok((w as i32, p2))
            }
        },
        Err(e) => Err(e),
    }
}

pub open spec fn enc_u32(v: u32) -> Seq<u8> {
    enc_u64(v as u64)
}

pub open spec fn sp_u32(s: Seq<u8>) -> Option<(u32, Seq<u8>)> {
    match sp_u64(s) {
        Some((u, rest)) => if u <= u32::MAX {
            Some((u as u32, rest))
        } else {
            None
        },
        None => None,
    }
}

/// An encoded enumeration code parses back to itself.
pub proof fn lemma_u32_round_trip(v: u32, rest: Seq<u8>)
    ensures
        sp_u32(enc_u32(v) + rest) == Some((v, rest)),
{
    lemma_u64_round_trip(v as u64, rest);
}

pub(crate) fn write_u32(out: &mut Vec<u8>, v: u32)
    ensures
        final(out)@ == old(out)@ + enc_u32(v),
{
    write_u64(out, v as u64);
}

pub(crate) fn read_u32(buf: &Vec<u8>, pos: usize) -> (r: Result<(u32, usize), QosError>)
    requires
        pos <= buf@.len(),
    ensures
        match r {
            Ok((v, p2)) => pos <= p2 <= buf@.len() && sp_u32(buf@.skip(pos as int)) == Some(
                (v, buf@.skip(p2 as int)),
            ),
            Err(e) => e == QosError::SerializationError && sp_u32(buf@.skip(pos as int)) is None,
        },
{
    match read_u64(buf, pos) {
        Ok((u, p2)) => {
            if u > u32::MAX as u64 {
                Err(QosError::SerializationError)
            } else {
                Ok((u as u32, p2))
            }
        },
        Err(e) => Err(e),
    }
}

pub open spec fn enc_bool(v: bool) -> Seq<u8> {
    if v {
        seq![1u8]
    } else {
        seq![0u8]
    }
}

pub open spec fn sp_bool(s: Seq<u8>) -> Option<(bool, Seq<u8>)> {
    match sp_byte(s) {
        Some((b, rest)) => if b == 0 {
            Some((false, rest))
        } else if b == 1 {
            Some((true, rest))
        } else {
            None
        },
        None => None,
    }
}

/// An encoded flag parses back to itself.
pub proof fn lemma_bool_round_trip(v: bool, rest: Seq<u8>)
    ensures
        sp_bool(enc_bool(v) + rest) == Some((v, rest)),
{
    if v {
        lemma_byte_round_trip(1u8, rest);
    } else {
        lemma_byte_round_trip(0u8, rest);
    }
}

pub(crate) fn write_bool(out: &mut Vec<u8>, v: bool)
    ensures
        final(out)@ == old(out)@ + enc_bool(v),
{
    if v {
        write_byte(out, 1);
    } else {
        write_byte(out, 0);
    }
}

pub(crate) fn read_bool(buf: &Vec<u8>, pos: usize) -> (r: Result<(bool, usize), QosError>)
    requires
        pos <= buf@.len(),
    ensures
        match r {
            Ok((v, p2)) => pos <= p2 <= buf@.len() && sp_bool(buf@.skip(pos as int)) == Some(
                (v, buf@.skip(p2 as int)),
            ),
            Err(e) => e == QosError::SerializationError && sp_bool(buf@.skip(pos as int)) is None,
        },
{
    match read_byte(buf, pos) {
        Ok((b, p2)) => {
            if b == 0 {
                Ok((false, p2))
            } else if b == 1 {
                Ok((true, p2))
            } else {
                Err(QosError::SerializationError)
            }
        },
        Err(e) => Err(e),
    }
}

// ---------------------------------------------------------------------------
// Counted lists of strings, of name/value pairs, and of representation
// identifiers.
// ---------------------------------------------------------------------------

pub open spec fn enc_strs(l: Seq<Seq<char>>) -> Seq<u8>
    decreases l.len(),
{
    if l.len() == 0 {
        Seq::empty()
    } else {
        enc_str(l[0]) + enc_strs(l.skip(1))
    }
}

pub open spec fn enc_str_list(l: Seq<Seq<char>>) -> Seq<u8> {
    enc_u64(l.len() as u64) + enc_strs(l)
}

pub open spec fn sp_strs(s: Seq<u8>, n: nat) -> Option<(Seq<Seq<char>>, Seq<u8>)>
    decreases n,
{
    if n == 0 {
        Some((Seq::empty(), s))
    } else {
        match sp_str(s) {
            Some((c, rest)) => match sp_strs(rest, (n - 1) as nat) {
                Some((cs, fin)) => Some((seq![c] + cs, fin)),
                None => None,
            },
            None => None,
        }
    }
}

pub open spec fn sp_str_list(s: Seq<u8>) -> Option<(Seq<Seq<char>>, Seq<u8>)> {
    match sp_u64(s) {
        Some((n, rest)) => sp_strs(rest, n as nat),
        None => None,
    }
}

/// Every string of the list has an encodable length, and so does the list.
pub open spec fn strs_encodable(l: Seq<Seq<char>>) -> bool {
    l.len() <= u64::MAX && (forall|i: int|
        0 <= i < l.len() ==> encode_utf8(#[trigger] l[i]).len() <= u64::MAX)
}

proof fn lemma_strs_round_trip(l: Seq<Seq<char>>, rest: Seq<u8>)
    requires
        strs_encodable(l),
    ensures
        sp_strs(enc_strs(l) + rest, l.len()) == Some((l, rest)),
    decreases l.len(),
{
    if l.len() == 0 {
        assert(enc_strs(l) + rest =~= rest);
        assert(l =~= Seq::<Seq<char>>::empty());
    } else {
        assert(enc_strs(l) + rest =~= enc_str(l[0]) + (enc_strs(l.skip(1)) + rest));
        lemma_str_round_trip(l[0], enc_strs(l.skip(1)) + rest);
        assert forall|i: int| 0 <= i < l.skip(1).len() implies encode_utf8(
            #[trigger] l.skip(1)[i],
        ).len() <= u64::MAX by {
            assert(l.skip(1)[i] == l[i + 1]);
        }
        lemma_strs_round_trip(l.skip(1), rest);
        assert(seq![l[0]] + l.skip(1) =~= l);
    }
}

/// An encoded string list parses back to itself and leaves the rest.
pub proof fn lemma_str_list_round_trip(l: Seq<Seq<char>>, rest: Seq<u8>)
    requires
        strs_encodable(l),
    ensures
        sp_str_list(enc_str_list(l) + rest) == Some((l, rest)),
{
    assert(enc_str_list(l) + rest =~= enc_u64(l.len() as u64) + (enc_strs(l) + rest));
    lemma_u64_round_trip(l.len() as u64, enc_strs(l) + rest);
    lemma_strs_round_trip(l, rest);
}

pub(crate) fn write_str_list(out: &mut Vec<u8>, v: &Vec<String>)
    ensures
        final(out)@ == old(out)@ + enc_str_list(v.deep_view()),
{
    let ghost dv = v.deep_view();
    let n = v.len();
    write_u64(out, n as u64);
    let ghost base = out@;
    proof {
        assert(dv.skip(0) =~= dv);
    }
    let mut i: usize = 0;
    while i < n
        invariant
            n == v@.len(),
            dv == v.deep_view(),
            i <= n,
            out@ + enc_strs(dv.skip(i as int)) == base + enc_strs(dv),
        decreases n - i,
    {
        proof {
            assert(dv.skip(i as int)[0] == dv[i as int]);
            assert(dv.skip(i as int).skip(1) =~= dv.skip(i as int + 1));
            assert(v[i as int]@ == dv[i as int]);
        }
        let ghost before = out@;
        write_str(out, &v[i]);
        proof {
            assert(before + enc_strs(dv.skip(i as int)) =~= (before + enc_str(dv[i as int]))
                + enc_strs(dv.skip(i as int + 1)));
        }
        i += 1;
    }
    proof {
        assert(enc_strs(dv.skip(n as int)) =~= Seq::<u8>::empty());
        assert(out@ + Seq::<u8>::empty() =~= out@);
        assert(base + enc_strs(dv) =~= old(out)@ + enc_str_list(dv));
    }
}

pub(crate) fn read_str_list(buf: &Vec<u8>, pos: usize) -> (r: Result<(Vec<String>, usize), QosError>)
    requires
        pos <= buf@.len(),
    ensures
        match r {
            Ok((v, p2)) => pos <= p2 <= buf@.len() && sp_str_list(buf@.skip(pos as int)) == Some(
                (v.deep_view(), buf@.skip(p2 as int)),
            ),
            Err(e) => e == QosError::SerializationError && sp_str_list(
                buf@.skip(pos as int),
            ) is None,
        },
{
    let (n, p_items) = match read_u64(buf, pos) {
        Ok(v) => v,
        Err(e) => {
            return Err(e);
        },
    };
    let mut acc: Vec<String> = Vec::new();
    let mut p = p_items;
    let mut i: u64 = 0;
    proof {
        assert(acc.deep_view() =~= Seq::<Seq<char>>::empty());
        match sp_strs(buf@.skip(p_items as int), n as nat) {
            Some((cs, fin)) => {
                assert(acc.deep_view() + cs =~= cs);
            },
            None => {},
        }
    }
    while i < n
        invariant
            pos <= p_items <= p <= buf@.len(),
            i <= n,
            sp_u64(buf@.skip(pos as int)) == Some((n, buf@.skip(p_items as int))),
            sp_strs(buf@.skip(p_items as int), n as nat) == (match sp_strs(
                buf@.skip(p as int),
                (n - i) as nat,
            ) {
                Some((cs, fin)) => Some((acc.deep_view() + cs, fin)),
                None => None,
            }),
        decreases n - i,
    {
        let (s, p2) = match read_str(buf, p) {
            Ok(v) => v,
            Err(e) => {
                return Err(e);
            },
        };
        let ghost prev = acc.deep_view();
        acc.push(s);
        proof {
            assert(acc.deep_view() =~= prev.push(s@));
            match sp_strs(buf@.skip(p2 as int), (n - i - 1) as nat) {
                Some((cs, fin)) => {
                    assert(prev + (seq![s@] + cs) =~= prev.push(s@) + cs);
                },
                None => {},
            }
        }
        p = p2;
        i = i + 1;
    }
    proof {
        assert(acc.deep_view() + Seq::<Seq<char>>::empty() =~= acc.deep_view());
    }
    Ok((acc, p))
}

// ---------------------------------------------------------------------------
// Counted lists of name/value pairs.
// ---------------------------------------------------------------------------

pub open spec fn enc_pair(p: PropView) -> Seq<u8> {
    enc_str(p.0) + enc_str(p.1)
}

pub open spec fn enc_pairs(l: Seq<PropView>) -> Seq<u8>
    decreases l.len(),
{
    if l.len() == 0 {
        Seq::empty()
    } else {
        enc_pair(l[0]) + enc_pairs(l.skip(1))
    }
}

pub open spec fn enc_pair_list(l: Seq<PropView>) -> Seq<u8> {
    enc_u64(l.len() as u64) + enc_pairs(l)
}

pub open spec fn sp_pair(s: Seq<u8>) -> Option<(PropView, Seq<u8>)> {
    match sp_str(s) {
        Some((k, r1)) => match sp_str(r1) {
            Some((v, r2)) => Some(((k, v), r2)),
            None => None,
        },
        None => None,
    }
}

pub open spec fn sp_pairs(s: Seq<u8>, n: nat) -> Option<(Seq<PropView>, Seq<u8>)>
    decreases n,
{
    if n == 0 {
        Some((Seq::empty(), s))
    } else {
        match sp_pair(s) {
            Some((p, rest)) => match sp_pairs(rest, (n - 1) as nat) {
                Some((ps, fin)) => Some((seq![p] + ps, fin)),
                None => None,
            },
            None => None,
        }
    }
}

pub open spec fn sp_pair_list(s: Seq<u8>) -> Option<(Seq<PropView>, Seq<u8>)> {
    match sp_u64(s) {
        Some((n, rest)) => sp_pairs(rest, n as nat),
        None => None,
    }
}

/// Every name and value of the list has an encodable length, and so does the
/// list.
pub open spec fn pairs_encodable(l: Seq<PropView>) -> bool {
    l.len() <= u64::MAX && (forall|i: int|
        0 <= i < l.len() ==> encode_utf8((#[trigger] l[i]).0).len() <= u64::MAX && encode_utf8(
            l[i].1,
        ).len() <= u64::MAX)
}

proof fn lemma_pair_round_trip(p: PropView, rest: Seq<u8>)
    requires
        encode_utf8(p.0).len() <= u64::MAX,
        encode_utf8(p.1).len() <= u64::MAX,
    ensures
        sp_pair(enc_pair(p) + rest) == Some((p, rest)),
{
    assert(enc_pair(p) + rest =~= enc_str(p.0) + (enc_str(p.1) + rest));
    lemma_str_round_trip(p.0, enc_str(p.1) + rest);
    lemma_str_round_trip(p.1, rest);
    assert((p.0, p.1) == p);
}

#[verifier::rlimit(50)]
proof fn lemma_pairs_round_trip(l: Seq<PropView>, rest: Seq<u8>)
    requires
        pairs_encodable(l),
    ensures
        sp_pairs(enc_pairs(l) + rest, l.len()) == Some((l, rest)),
    decreases l.len(),
{
    if l.len() == 0 {
        assert(enc_pairs(l) + rest =~= rest);
        assert(l =~= Seq::<PropView>::empty());
    } else {
        assert(enc_pairs(l) + rest =~= enc_pair(l[0]) + (enc_pairs(l.skip(1)) + rest));
        lemma_pair_round_trip(l[0], enc_pairs(l.skip(1)) + rest);
        assert forall|i: int| 0 <= i < l.skip(1).len() implies encode_utf8(
            (#[trigger] l.skip(1)[i]).0,
        ).len() <= u64::MAX && encode_utf8(l.skip(1)[i].1).len() <= u64::MAX by {
            assert(l.skip(1)[i] == l[i + 1]);
        }
        lemma_pairs_round_trip(l.skip(1), rest);
        assert(seq![l[0]] + l.skip(1) =~= l);
    }
}

/// An encoded name/value list parses back to itself and leaves the rest.
pub proof fn lemma_pair_list_round_trip(l: Seq<PropView>, rest: Seq<u8>)
    requires
        pairs_encodable(l),
    ensures
        sp_pair_list(enc_pair_list(l) + rest) == Some((l, rest)),
{
    assert(enc_pair_list(l) + rest =~= enc_u64(l.len() as u64) + (enc_pairs(l) + rest));
    lemma_u64_round_trip(l.len() as u64, enc_pairs(l) + rest);
    lemma_pairs_round_trip(l, rest);
}

pub(crate) fn write_pair_list(out: &mut Vec<u8>, props: &Properties)
    ensures
        final(out)@ == old(out)@ + enc_pair_list(props.deep_view()),
{
    let ghost dv = props.deep_view();
    let n = props.entries.len();
    write_u64(out, n as u64);
    let ghost base = out@;
    proof {
        assert(dv.skip(0) =~= dv);
    }
    let mut i: usize = 0;
    while i < n
        invariant
            n == props.entries@.len(),
            dv == props.deep_view(),
            i <= n,
            out@ + enc_pairs(dv.skip(i as int)) == base + enc_pairs(dv),
        decreases n - i,
    {
        proof {
            assert(dv.skip(i as int)[0] == dv[i as int]);
            assert(dv.skip(i as int).skip(1) =~= dv.skip(i as int + 1));
            assert(dv[i as int] == (props.entries[i as int].key@, props.entries[i as int].value@));
        }
        let ghost before = out@;
        write_str(out, &props.entries[i].key);
        write_str(out, &props.entries[i].value);
        proof {
            assert(out@ =~= before + enc_pair(dv[i as int]));
            assert(before + enc_pairs(dv.skip(i as int)) =~= (before + enc_pair(dv[i as int]))
                + enc_pairs(dv.skip(i as int + 1)));
        }
        i += 1;
    }
    proof {
        assert(enc_pairs(dv.skip(n as int)) =~= Seq::<u8>::empty());
        assert(out@ + Seq::<u8>::empty() =~= out@);
        assert(base + enc_pairs(dv) =~= old(out)@ + enc_pair_list(dv));
    }
}

pub(crate) fn read_pair_list(buf: &Vec<u8>, pos: usize) -> (r: Result<(Properties, usize), QosError>)
    requires
        pos <= buf@.len(),
    ensures
        match r {
            Ok((v, p2)) => pos <= p2 <= buf@.len() && sp_pair_list(buf@.skip(pos as int)) == Some(
                (v.deep_view(), buf@.skip(p2 as int)),
            ),
            Err(e) => e == QosError::SerializationError && sp_pair_list(
                buf@.skip(pos as int),
            ) is None,
        },
{
    let (n, p_items) = match read_u64(buf, pos) {
        Ok(v) => v,
        Err(e) => {
            return Err(e);
        },
    };
    let mut acc: Vec<Property> = Vec::new();
    let mut p = p_items;
    let mut i: u64 = 0;
    proof {
        assert(acc.deep_view() =~= Seq::<PropView>::empty());
        match sp_pairs(buf@.skip(p_items as int), n as nat) {
            Some((ps, fin)) => {
                assert(acc.deep_view() + ps =~= ps);
            },
            None => {},
        }
    }
    while i < n
        invariant
            pos <= p_items <= p <= buf@.len(),
            i <= n,
            sp_u64(buf@.skip(pos as int)) == Some((n, buf@.skip(p_items as int))),
            sp_pairs(buf@.skip(p_items as int), n as nat) == (match sp_pairs(
                buf@.skip(p as int),
                (n - i) as nat,
            ) {
                Some((ps, fin)) => Some((acc.deep_view() + ps, fin)),
                None => None,
            }),
        decreases n - i,
    {
        let (key, p1) = match read_str(buf, p) {
            Ok(v) => v,
            Err(e) => {
                return Err(e);
            },
        };
        let (value, p2) = match read_str(buf, p1) {
            Ok(v) => v,
            Err(e) => {
                return Err(e);
            },
        };
        let ghost prev = acc.deep_view();
        let ghost pair = (key@, value@);
        acc.push(Property { key, value });
        proof {
            assert(acc.deep_view() =~= prev.push(pair));
            match sp_pairs(buf@.skip(p2 as int), (n - i - 1) as nat) {
                Some((ps, fin)) => {
                    assert(prev + (seq![pair] + ps) =~= prev.push(pair) + ps);
                },
                None => {},
            }
        }
        p = p2;
        i = i + 1;
    }
    proof {
        assert(acc.deep_view() + Seq::<PropView>::empty() =~= acc.deep_view());
    }
    Ok((Properties { entries: acc }, p))
}

// ---------------------------------------------------------------------------
// Counted lists of representation identifiers.
// ---------------------------------------------------------------------------

pub open spec fn enc_u16s(l: Seq<u16>) -> Seq<u8>
    decreases l.len(),
{
    if l.len() == 0 {
        Seq::empty()
    } else {
        enc_u64(l[0] as u64) + enc_u16s(l.skip(1))
    }
}

pub open spec fn enc_u16_list(l: Seq<u16>) -> Seq<u8> {
    enc_u64(l.len() as u64) + enc_u16s(l)
}

pub open spec fn sp_u16s(s: Seq<u8>, n: nat) -> Option<(Seq<u16>, Seq<u8>)>
    decreases n,
{
    if n == 0 {
        Some((Seq::empty(), s))
    } else {
        match sp_u64(s) {
            Some((u, rest)) => if u <= u16::MAX {
                match sp_u16s(rest, (n - 1) as nat) {
                    Some((vs, fin)) => Some((seq![u as u16] + vs, fin)),
                    None => None,
                }
            } else {
                None
            },
            None => None,
        }
    }
}

pub open spec fn sp_u16_list(s: Seq<u8>) -> Option<(Seq<u16>, Seq<u8>)> {
    match sp_u64(s) {
        Some((n, rest)) => sp_u16s(rest, n as nat),
        None => None,
    }
}

proof fn lemma_u16s_round_trip(l: Seq<u16>, rest: Seq<u8>)
    ensures
        sp_u16s(enc_u16s(l) + rest, l.len()) == Some((l, rest)),
    decreases l.len(),
{
    if l.len() == 0 {
        assert(enc_u16s(l) + rest =~= rest);
        assert(l =~= Seq::<u16>::empty());
    } else {
        assert(enc_u16s(l) + rest =~= enc_u64(l[0] as u64) + (enc_u16s(l.skip(1)) + rest));
        lemma_u64_round_trip(l[0] as u64, enc_u16s(l.skip(1)) + rest);
        lemma_u16s_round_trip(l.skip(1), rest);
        assert(seq![l[0]] + l.skip(1) =~= l);
    }
}

/// An encoded identifier list parses back to itself and leaves the rest.
pub proof fn lemma_u16_list_round_trip(l: Seq<u16>, rest: Seq<u8>)
    requires
        l.len() <= u64::MAX,
    ensures
        sp_u16_list(enc_u16_list(l) + rest) == Some((l, rest)),
{
    assert(enc_u16_list(l) + rest =~= enc_u64(l.len() as u64) + (enc_u16s(l) + rest));
    lemma_u64_round_trip(l.len() as u64, enc_u16s(l) + rest);
    lemma_u16s_round_trip(l, rest);
}

pub(crate) fn write_u16_list(out: &mut Vec<u8>, v: &Vec<u16>)
    ensures
        final(out)@ == old(out)@ + enc_u16_list(v@),
{
    let ghost dv = v@;
    let n = v.len();
    write_u64(out, n as u64);
    let ghost base = out@;
    proof {
        assert(dv.skip(0) =~= dv);
    }
    let mut i: usize = 0;
    while i < n
        invariant
            n == v@.len(),
            dv == v@,
            i <= n,
            out@ + enc_u16s(dv.skip(i as int)) == base + enc_u16s(dv),
        decreases n - i,
    {
        proof {
            assert(dv.skip(i as int)[0] == dv[i as int]);
            assert(dv.skip(i as int).skip(1) =~= dv.skip(i as int + 1));
        }
        let ghost before = out@;
        write_u64(out, v[i] as u64);
        proof {
            assert(before + enc_u16s(dv.skip(i as int)) =~= (before + enc_u64(dv[i as int] as u64))
                + enc_u16s(dv.skip(i as int + 1)));
        }
        i += 1;
    }
    proof {
        assert(enc_u16s(dv.skip(n as int)) =~= Seq::<u8>::empty());
        assert(out@ + Seq::<u8>::empty() =~= out@);
        assert(base + enc_u16s(dv) =~= old(out)@ + enc_u16_list(dv));
    }
}

pub(crate) fn read_u16_list(buf: &Vec<u8>, pos: usize) -> (r: Result<(Vec<u16>, usize), QosError>)
    requires
        pos <= buf@.len(),
    ensures
        match r {
            Ok((v, p2)) => pos <= p2 <= buf@.len() && sp_u16_list(buf@.skip(pos as int)) == Some(
                (v@, buf@.skip(p2 as int)),
            ),
            Err(e) => e == QosError::SerializationError && sp_u16_list(
                buf@.skip(pos as int),
            ) is None,
        },
{
    let (n, p_items) = match read_u64(buf, pos) {
        Ok(v) => v,
        Err(e) => {
            return Err(e);
        },
    };
    let mut acc: Vec<u16> = Vec::new();
    let mut p = p_items;
    let mut i: u64 = 0;
    proof {
        assert(acc@ =~= Seq::<u16>::empty());
        match sp_u16s(buf@.skip(p_items as int), n as nat) {
            Some((vs, fin)) => {
                assert(acc@ + vs =~= vs);
            },
            None => {},
        }
    }
    while i < n
        invariant
            pos <= p_items <= p <= buf@.len(),
            i <= n,
            sp_u64(buf@.skip(pos as int)) == Some((n, buf@.skip(p_items as int))),
            sp_u16s(buf@.skip(p_items as int), n as nat) == (match sp_u16s(
                buf@.skip(p as int),
                (n - i) as nat,
            ) {
                Some((vs, fin)) => Some((acc@ + vs, fin)),
                None => None,
            }),
        decreases n - i,
    {
        let (u, p2) = match read_u64(buf, p) {
            Ok(v) => v,
            Err(e) => {
                return Err(e);
            },
        };
        if u > u16::MAX as u64 {
            return Err(QosError::SerializationError);
        }
        let ghost prev = acc@;
        acc.push(u as u16);
        proof {
            assert(acc@ =~= prev.push(u as u16));
            match sp_u16s(buf@.skip(p2 as int), (n - i - 1) as nat) {
                Some((vs, fin)) => {
                    assert(prev + (seq![u as u16] + vs) =~= prev.push(u as u16) + vs);
                },
                None => {},
            }
        }
        p = p2;
        i = i + 1;
    }
    proof {
        assert(acc@ + Seq::<u16>::empty() =~= acc@);
    }
    Ok((acc, p))
}

} // verus!
