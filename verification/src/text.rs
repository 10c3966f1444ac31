//! Self-describing text form of the aggregate: a presence header followed by
//! one named, field-named segment per present policy; absent policies are
//! simply omitted.  Numbers are signed decimals, buffers and strings are
//! length-prefixed segments.  Decoding a freshly encoded aggregate reproduces
//! it exactly; malformed input is reported as a serialization error.

use vstd::prelude::*;
use vstd::utf8::encode_utf8;
use vstd::utf8::valid_utf8;
use vstd::utf8::decode_utf8;
use vstd::utf8::encode_utf8_valid_utf8;
use vstd::utf8::encode_utf8_decode_utf8;
use vstd::string::StringSliceAdditionalSpecFns;
use vstd::slice::slice_subrange;
use vstd::slice::slice_to_vec;
use crate::QosError;
use crate::wire::string_from_utf8;

verus! {

pub open spec fn is_digit(b: u8) -> bool {
    48 <= b <= 57
}

// ---------------------------------------------------------------------------
// Unsigned decimal numbers.
// ---------------------------------------------------------------------------

pub open spec fn dec_u64(v: u64) -> Seq<u8>
    decreases v,
{
    if v < 10 {
        seq![(48 + v) as u8]
    } else {
        dec_u64(v / 10) + seq![(48 + v % 10) as u8]
    }
}

/// Largest value that can take one more digit without overflowing.
pub open spec fn udec_limit() -> u64 {
    1844674407370955161
}

pub open spec fn sp_udec_loop(s: Seq<u8>, acc: u64) -> Option<(u64, Seq<u8>)>
    decreases s.len(),
{
    if s.len() == 0 || !is_digit(s[0]) {
        Some((acc, s))
    } else {
        let d = (s[0] - 48) as u64;
        if acc > udec_limit() || (acc == udec_limit() && d > 5) {
            None
        } else {
            sp_udec_loop(s.skip(1), (acc * 10 + d) as u64)
        }
    }
}

pub open spec fn sp_udec(s: Seq<u8>) -> Option<(u64, Seq<u8>)> {
    if s.len() == 0 || !is_digit(s[0]) {
        None
    } else {
        sp_udec_loop(s, 0)
    }
}

pub open spec fn pow10_len(v: u64) -> int
    decreases v,
{
    if v < 10 {
        10
    } else {
        10 * pow10_len(v / 10)
    }
}

proof fn lemma_pow10_len_pos(v: u64)
    ensures
        pow10_len(v) >= 10,
    decreases v,
{
    if v >= 10 {
        lemma_pow10_len_pos(v / 10);
    }
}

proof fn lemma_dec_u64_first_digit(v: u64)
    ensures
        dec_u64(v).len() >= 1,
        is_digit(dec_u64(v)[0]),
    decreases v,
{
    if v >= 10 {
        lemma_dec_u64_first_digit(v / 10);
        assert(dec_u64(v)[0] == dec_u64(v / 10)[0]);
    }
}

proof fn lemma_udec_loop(v: u64, rest: Seq<u8>, acc: u64)
    requires
        acc * pow10_len(v) + v <= u64::MAX,
    ensures
        sp_udec_loop(dec_u64(v) + rest, acc) == sp_udec_loop(
            rest,
            (acc * pow10_len(v) + v) as u64,
        ),
    decreases v,
{
    lemma_pow10_len_pos(v);
    if v < 10 {
        let s = dec_u64(v) + rest;
        assert(s[0] == (48 + v) as u8);
        assert(s.skip(1) =~= rest);
        assert(acc * 10 + v <= u64::MAX);
        assert(!(acc > udec_limit() || (acc == udec_limit() && v > 5))) by {
            if acc > udec_limit() {
                assert(acc >= udec_limit() + 1);
                assert(acc * 10 >= (udec_limit() + 1) * 10) by (nonlinear_arith)
                    requires
                        acc >= udec_limit() + 1,
                ;
            }
        }
    } else {
        let d = v % 10;
        let digit = (48 + d) as u8;
        assert(dec_u64(v) + rest =~= dec_u64(v / 10) + (seq![digit] + rest));
        let p2 = pow10_len(v / 10);
        assert(pow10_len(v) == 10 * p2);
        assert(v == (v / 10) * 10 + v % 10);
        assert((acc * p2 + v / 10) * 10 + v % 10 == acc * (10 * p2) + v) by (nonlinear_arith)
            requires
                v == (v / 10) * 10 + v % 10,
                p2 == pow10_len(v / 10),
        ;
        assert(acc * p2 + v / 10 <= u64::MAX) by (nonlinear_arith)
            requires
                (acc * p2 + v / 10) * 10 + v % 10 == acc * (10 * p2) + v,
                acc * (10 * p2) + v <= u64::MAX,
                v % 10 >= 0,
                acc >= 0,
                p2 >= 10,
                v >= 10,
        ;
        lemma_udec_loop(v / 10, seq![digit] + rest, acc);
        let acc2 = (acc * p2 + v / 10) as u64;
        let s2 = seq![digit] + rest;
        assert(s2[0] == digit);
        assert(s2.skip(1) =~= rest);
        assert(acc2 * 10 + d <= u64::MAX);
        assert(!(acc2 > udec_limit() || (acc2 == udec_limit() && d > 5))) by {
            if acc2 > udec_limit() {
                assert(acc2 >= udec_limit() + 1);
                assert(acc2 * 10 >= (udec_limit() + 1) * 10) by (nonlinear_arith)
                    requires
                        acc2 >= udec_limit() + 1,
                ;
            }
        }
        assert(sp_udec_loop(s2, acc2) == sp_udec_loop(rest, (acc2 * 10 + d) as u64));
    }
}

/// A decimal rendering followed by a non-digit parses back to its value.
pub proof fn lemma_udec_round_trip(v: u64, rest: Seq<u8>)
    requires
        rest.len() == 0 || !is_digit(rest[0]),
    ensures
        sp_udec(dec_u64(v) + rest) == Some((v, rest)),
{
    lemma_dec_u64_first_digit(v);
    assert((dec_u64(v) + rest)[0] == dec_u64(v)[0]);
    lemma_pow10_len_pos(v);
    assert(0 * pow10_len(v) + v <= u64::MAX);
    lemma_udec_loop(v, rest, 0);
    assert((0 * pow10_len(v) + v) as u64 == v);
}

pub(crate) fn write_udec(out: &mut Vec<u8>, v: u64)
    ensures
        final(out)@ == old(out)@ + dec_u64(v),
    decreases v,
{
    let ghost prev = out@;
    if v < 10 {
        out.push((48 + v) as u8);
        proof {
            assert(out@ =~= prev + dec_u64(v));
        }
    } else {
        write_udec(out, v / 10);
        out.push((48 + v % 10) as u8);
        proof {
            assert(out@ =~= prev + dec_u64(v));
        }
    }
}

pub(crate) fn read_udec(buf: &Vec<u8>, pos: usize) -> (r: Result<(u64, usize), QosError>)
    requires
        pos <= buf@.len(),
    ensures
        match r {
            Ok((v, p2)) => pos <= p2 <= buf@.len() && sp_udec(buf@.skip(pos as int)) == Some(
                (v, buf@.skip(p2 as int)),
            ),
            Err(e) => e == QosError::SerializationError && sp_udec(buf@.skip(pos as int)) is None,
        },
{
    if pos == buf.len() || buf[pos] < 48 || buf[pos] > 57 {
        return Err(QosError::SerializationError);
    }
    let mut p = pos;
    let mut acc: u64 = 0;
    proof {
        assert(buf@.skip(pos as int)[0] == buf@[pos as int]);
    }
    while p < buf.len() && 48 <= buf[p] && buf[p] <= 57
        invariant
            pos <= p <= buf@.len(),
            sp_udec_loop(buf@.skip(pos as int), 0) == sp_udec_loop(buf@.skip(p as int), acc),
        decreases buf@.len() - p,
    {
        let d = (buf[p] - 48) as u64;
        proof {
            assert(buf@.skip(p as int)[0] == buf@[p as int]);
        }
        if acc > 1844674407370955161 || (acc == 1844674407370955161 && d > 5) {
            return Err(QosError::SerializationError);
        }
        proof {
            assert(buf@.skip(p as int).skip(1) =~= buf@.skip(p as int + 1));
        }
        acc = acc * 10 + d;
        p += 1;
    }
    proof {
        if p < buf@.len() {
            assert(buf@.skip(p as int)[0] == buf@[p as int]);
        } else {
            assert(buf@.skip(p as int).len() == 0);
        }
    }
    Ok((acc, p))
}

// ---------------------------------------------------------------------------
// Signed decimal numbers.
// ---------------------------------------------------------------------------

pub open spec fn dec_i64(v: i64) -> Seq<u8> {
    if v >= 0 {
        dec_u64(v as u64)
    } else {
        seq![45u8] + dec_u64((0 - (v as int)) as u64)
    }
}

pub open spec fn sp_idec(s: Seq<u8>) -> Option<(i64, Seq<u8>)> {
    if s.len() >= 1 && s[0] == 45 {
        match sp_udec(s.skip(1)) {
            Some((u, rest)) => if 1 <= u <= 0x8000_0000_0000_0000 {
                Some(((0 - (u as int)) as i64, rest))
            } else {
                None
            },
            None => None,
        }
    } else {
        match sp_udec(s) {
            Some((u, rest)) => if u <= i64::MAX as u64 {
                Some((u as i64, rest))
            } else {
                None
            },
            None => None,
        }
    }
}

/// A signed decimal rendering followed by a non-digit parses back exactly.
pub proof fn lemma_idec_round_trip(v: i64, rest: Seq<u8>)
    requires
        rest.len() == 0 || !is_digit(rest[0]),
    ensures
        sp_idec(dec_i64(v) + rest) == Some((v, rest)),
{
    if v >= 0 {
        lemma_udec_round_trip(v as u64, rest);
        lemma_dec_u64_first_digit(v as u64);
        assert((dec_i64(v) + rest)[0] == dec_u64(v as u64)[0]);
    } else {
        let m = (0 - (v as int)) as u64;
        assert(dec_i64(v) + rest =~= seq![45u8] + (dec_u64(m) + rest));
        lemma_udec_round_trip(m, rest);
        assert((seq![45u8] + (dec_u64(m) + rest)).skip(1) =~= dec_u64(m) + rest);
    }
}

pub(crate) fn write_idec(out: &mut Vec<u8>, v: i64)
    ensures
        final(out)@ == old(out)@ + dec_i64(v),
{
    let ghost prev = out@;
    if v >= 0 {
        write_udec(out, v as u64);
    } else {
        out.push(45);
        let m = ((0 - (v as i128)) as u64);
        write_udec(out, m);
        proof {
            assert(out@ =~= prev + dec_i64(v));
        }
    }
}

pub(crate) fn read_idec(buf: &Vec<u8>, pos: usize) -> (r: Result<(i64, usize), QosError>)
    requires
        pos <= buf@.len(),
    ensures
        match r {
            Ok((v, p2)) => pos <= p2 <= buf@.len() && sp_idec(buf@.skip(pos as int)) == Some(
                (v, buf@.skip(p2 as int)),
            ),
            Err(e) => e == QosError::SerializationError && sp_idec(buf@.skip(pos as int)) is None,
        },
{
    if pos < buf.len() && buf[pos] == 45 {
        proof {
            assert(buf@.skip(pos as int)[0] == buf@[pos as int]);
            assert(buf@.skip(pos as int).skip(1) =~= buf@.skip(pos as int + 1));
        }
        let (u, p2) = match read_udec(buf, pos + 1) {
            Ok(x) => x,
            Err(e) => {
                return Err(e);
            },
        };
        if u < 1 || u > 0x8000_0000_0000_0000 {
            return Err(QosError::SerializationError);
        }
        Ok((((0 - (u as i128)) as i64), p2))
    } else {
        proof {
            if pos < buf@.len() {
                assert(buf@.skip(pos as int)[0] == buf@[pos as int]);
            } else {
                assert(buf@.skip(pos as int).len() == 0);
            }
        }
        let (u, p2) = match read_udec(buf, pos) {
            Ok(x) => x,
            Err(e) => {
                return Err(e);
            },
        };
        if u > i64::MAX as u64 {
            return Err(QosError::SerializationError);
        }
        Ok((u as i64, p2))
    }
}

// ---------------------------------------------------------------------------
// Single expected bytes and length-prefixed raw segments.
// ---------------------------------------------------------------------------

pub open spec fn sp_exact(s: Seq<u8>, b: u8) -> Option<Seq<u8>> {
    if s.len() >= 1 && s[0] == b {
        Some(s.skip(1))
    } else {
        None
    }
}

pub(crate) fn read_exact(buf: &Vec<u8>, pos: usize, b: u8) -> (r: Result<usize, QosError>)
    requires
        pos <= buf@.len(),
    ensures
        match r {
            Ok(p2) => pos <= p2 <= buf@.len() && sp_exact(buf@.skip(pos as int), b) == Some(
                buf@.skip(p2 as int),
            ),
            Err(e) => e == QosError::SerializationError && sp_exact(
                buf@.skip(pos as int),
                b,
            ) is None,
        },
{
    if pos < buf.len() && buf[pos] == b {
        proof {
            assert(buf@.skip(pos as int)[0] == buf@[pos as int]);
            assert(buf@.skip(pos as int).skip(1) =~= buf@.skip(pos as int + 1));
        }
        Ok(pos + 1)
    } else {
        proof {
            if pos < buf@.len() {
                assert(buf@.skip(pos as int)[0] == buf@[pos as int]);
            }
        }
        Err(QosError::SerializationError)
    }
}

/// A parsed single byte appended before a suffix is found there.
pub proof fn lemma_exact_round_trip(b: u8, rest: Seq<u8>)
    ensures
        sp_exact(seq![b] + rest, b) == Some(rest),
{
    assert((seq![b] + rest).skip(1) =~= rest);
}

pub open spec fn enc_traw(b: Seq<u8>) -> Seq<u8> {
    dec_u64(b.len() as u64) + seq![58u8] + b
}

pub open spec fn sp_traw(s: Seq<u8>) -> Option<(Seq<u8>, Seq<u8>)> {
    match sp_udec(s) {
        Some((n, rest)) => match sp_exact(rest, 58) {
            Some(rest2) => if rest2.len() >= n {
                Some((rest2.take(n as int), rest2.skip(n as int)))
            } else {
                None
            },
            None => None,
        },
        None => None,
    }
}

/// An encoded raw segment parses back to its bytes and leaves the rest.
pub proof fn lemma_traw_round_trip(b: Seq<u8>, rest: Seq<u8>)
    requires
        b.len() <= u64::MAX,
    ensures
        sp_traw(enc_traw(b) + rest) == Some((b, rest)),
{
    let n = b.len() as u64;
    assert(enc_traw(b) + rest =~= dec_u64(n) + (seq![58u8] + (b + rest)));
    assert(!is_digit(58u8));
    assert((seq![58u8] + (b + rest))[0] == 58u8);
    lemma_udec_round_trip(n, seq![58u8] + (b + rest));
    lemma_exact_round_trip(58u8, b + rest);
    assert((b + rest).take(n as int) =~= b);
    assert((b + rest).skip(n as int) =~= rest);
}

pub(crate) fn write_traw(out: &mut Vec<u8>, b: &Vec<u8>)
    ensures
        final(out)@ == old(out)@ + enc_traw(b@),
{
    let ghost prev = out@;
    write_udec(out, b.len() as u64);
    out.push(58);
    let mut copy = crate::native::clone_bytes(b);
    out.append(&mut copy);
    proof {
        assert(out@ =~= prev + enc_traw(b@));
    }
}

pub(crate) fn read_traw(buf: &Vec<u8>, pos: usize) -> (r: Result<(Vec<u8>, usize), QosError>)
    requires
        pos <= buf@.len(),
    ensures
        match r {
            Ok((v, p2)) => pos <= p2 <= buf@.len() && sp_traw(buf@.skip(pos as int)) == Some(
                (v@, buf@.skip(p2 as int)),
            ),
            Err(e) => e == QosError::SerializationError && sp_traw(buf@.skip(pos as int)) is None,
        },
{
    let (n, p) = match read_udec(buf, pos) {
        Ok(x) => x,
        Err(e) => {
            return Err(e);
        },
    };
    let p = match read_exact(buf, p, 58) {
        Ok(x) => x,
        Err(e) => {
            return Err(e);
        },
    };
    if n > (buf.len() - p) as u64 {
        return Err(QosError::SerializationError);
    }
    let len = n as usize;
    let v = slice_to_vec(slice_subrange(buf.as_slice(), p, p + len));
    proof {
        let rest2 = buf@.skip(p as int);
        assert(rest2.take(n as int) =~= buf@.subrange(p as int, p as int + n as int));
        assert(rest2.skip(n as int) =~= buf@.skip(p as int + n as int));
    }
    Ok((v, p + len))
}

// ---------------------------------------------------------------------------
// Strings as UTF-8 raw segments.
// ---------------------------------------------------------------------------

pub open spec fn enc_tstr(cs: Seq<char>) -> Seq<u8> {
    enc_traw(encode_utf8(cs))
}

pub open spec fn sp_tstr(s: Seq<u8>) -> Option<(Seq<char>, Seq<u8>)> {
    match sp_traw(s) {
        Some((b, rest)) => if valid_utf8(b) {
            Some((decode_utf8(b), rest))
        } else {
            None
        },
        None => None,
    }
}

/// An encoded string segment parses back to its characters.
pub proof fn lemma_tstr_round_trip(cs: Seq<char>, rest: Seq<u8>)
    requires
        encode_utf8(cs).len() <= u64::MAX,
    ensures
        sp_tstr(enc_tstr(cs) + rest) == Some((cs, rest)),
{
    lemma_traw_round_trip(encode_utf8(cs), rest);
    encode_utf8_valid_utf8(cs);
    encode_utf8_decode_utf8(cs);
}

pub(crate) fn write_tstr(out: &mut Vec<u8>, s: &String)
    ensures
        final(out)@ == old(out)@ + enc_tstr(s@),
{
    let b = s.as_str().as_bytes_vec();
    write_traw(out, &b);
}

pub(crate) fn read_tstr(buf: &Vec<u8>, pos: usize) -> (r: Result<(String, usize), QosError>)
    requires
        pos <= buf@.len(),
    ensures
        match r {
            Ok((v, p2)) => pos <= p2 <= buf@.len() && sp_tstr(buf@.skip(pos as int)) == Some(
                (v@, buf@.skip(p2 as int)),
            ),
            Err(e) => e == QosError::SerializationError && sp_tstr(buf@.skip(pos as int)) is None,
        },
{
    let (bytes, p2) = match read_traw(buf, pos) {
        Ok(x) => x,
        Err(e) => {
            return Err(e);
        },
    };
    match string_from_utf8(bytes) {
        Some(s) => Ok((s, p2)),
        None => Err(QosError::SerializationError),
    }
}

// ---------------------------------------------------------------------------
// Expected literals: policy and field names.
// ---------------------------------------------------------------------------

pub open spec fn sp_lit(s: Seq<u8>, lit: Seq<u8>) -> Option<Seq<u8>> {
    if s.len() >= lit.len() && s.take(lit.len() as int) == lit {
        Some(s.skip(lit.len() as int))
    } else {
        None
    }
}

/// An emitted literal is found at the head of what it precedes.
pub proof fn lemma_lit_round_trip(lit: Seq<u8>, rest: Seq<u8>)
    ensures
        sp_lit(lit + rest, lit) == Some(rest),
{
    assert((lit + rest).take(lit.len() as int) =~= lit);
    assert((lit + rest).skip(lit.len() as int) =~= rest);
}

pub(crate) fn write_lit(out: &mut Vec<u8>, s: &str)
    ensures
        final(out)@ == old(out)@ + s.spec_bytes(),
{
    let ghost prev = out@;
    let mut b = s.as_bytes_vec();
    out.append(&mut b);
}

pub(crate) fn expect_lit(buf: &Vec<u8>, pos: usize, s: &str) -> (r: Result<usize, QosError>)
    requires
        pos <= buf@.len(),
    ensures
        match r {
            Ok(p2) => pos <= p2 <= buf@.len() && sp_lit(buf@.skip(pos as int), s.spec_bytes())
                == Some(buf@.skip(p2 as int)),
            Err(e) => e == QosError::SerializationError && sp_lit(
                buf@.skip(pos as int),
                s.spec_bytes(),
            ) is None,
        },
{
    let b = s.as_bytes();
    let n = b.len();
    if n > buf.len() - pos {
        return Err(QosError::SerializationError);
    }
    let end = pos + n;
    let mut i: usize = 0;
    let mut p = pos;
    while i < n
        invariant
            end == pos + n <= buf@.len(),
            p == pos + i,
            n == b@.len(),
            b@ == s.spec_bytes(),
            i <= n,
            forall|m: int| 0 <= m < i ==> buf@.skip(pos as int)[m] == b@[m],
        decreases n - i,
    {
        if *vstd::slice::slice_index_get(b, i) != buf[p] {
            proof {
                assert(buf@.skip(pos as int)[i as int] == buf@[p as int]);
                assert(buf@.skip(pos as int).take(n as int)[i as int] != b@[i as int]);
            }
            return Err(QosError::SerializationError);
        }
        proof {
            assert(buf@.skip(pos as int)[i as int] == buf@[p as int]);
        }
        i += 1;
        p += 1;
    }
    proof {
        assert(buf@.skip(pos as int).take(n as int) =~= b@);
        assert(buf@.skip(pos as int).skip(n as int) =~= buf@.skip(pos as int + n as int));
    }
    Ok(pos + n)
}

// ---------------------------------------------------------------------------
// Flags and counted lists: strings, name/value pairs, identifiers.
// ---------------------------------------------------------------------------

pub open spec fn enc_tbool(v: bool) -> Seq<u8> {
    if v {
        seq![49u8]
    } else {
        seq![48u8]
    }
}

pub open spec fn sp_tbool(s: Seq<u8>) -> Option<(bool, Seq<u8>)> {
    if s.len() >= 1 && s[0] == 48 {
        Some((false, s.skip(1)))
    } else if s.len() >= 1 && s[0] == 49 {
        Some((true, s.skip(1)))
    } else {
        None
    }
}

/// An encoded flag parses back to itself.
pub proof fn lemma_tbool_round_trip(v: bool, rest: Seq<u8>)
    ensures
        sp_tbool(enc_tbool(v) + rest) == Some((v, rest)),
{
    assert((enc_tbool(v) + rest).skip(1) =~= rest);
}

pub(crate) fn write_tbool(out: &mut Vec<u8>, v: bool)
    ensures
        final(out)@ == old(out)@ + enc_tbool(v),
{
    let ghost prev = out@;
    if v {
        out.push(49);
    } else {
        out.push(48);
    }
    proof {
        assert(out@ =~= prev + enc_tbool(v));
    }
}

pub(crate) fn read_tbool(buf: &Vec<u8>, pos: usize) -> (r: Result<(bool, usize), QosError>)
    requires
        pos <= buf@.len(),
    ensures
        match r {
            Ok((v, p2)) => pos <= p2 <= buf@.len() && sp_tbool(buf@.skip(pos as int)) == Some(
                (v, buf@.skip(p2 as int)),
            ),
            Err(e) => e == QosError::SerializationError && sp_tbool(buf@.skip(pos as int)) is None,
        },
{
    if pos < buf.len() && (buf[pos] == 48 || buf[pos] == 49) {
        proof {
            assert(buf@.skip(pos as int)[0] == buf@[pos as int]);
            assert(buf@.skip(pos as int).skip(1) =~= buf@.skip(pos as int + 1));
        }
        Ok((buf[pos] == 49, pos + 1))
    } else {
        proof {
            if pos < buf@.len() {
                assert(buf@.skip(pos as int)[0] == buf@[pos as int]);
            }
        }
        Err(QosError::SerializationError)
    }
}

pub open spec fn enc_titems_str(l: Seq<Seq<char>>) -> Seq<u8>
    decreases l.len(),
{
    if l.len() == 0 {
        Seq::empty()
    } else {
        seq![44u8] + enc_tstr(l[0]) + enc_titems_str(l.skip(1))
    }
}

pub open spec fn enc_tstrlist(l: Seq<Seq<char>>) -> Seq<u8> {
    dec_u64(l.len() as u64) + enc_titems_str(l)
}

pub open spec fn sp_titems_str(s: Seq<u8>, n: nat) -> Option<(Seq<Seq<char>>, Seq<u8>)>
    decreases n,
{
    if n == 0 {
        Some((Seq::empty(), s))
    } else {
        match sp_exact(s, 44) {
            Some(s1) => match sp_tstr(s1) {
                Some((c, s2)) => match sp_titems_str(s2, (n - 1) as nat) {
                    Some((cs, fin)) => Some((seq![c] + cs, fin)),
                    None => None,
                },
                None => None,
            },
            None => None,
        }
    }
}

pub open spec fn sp_tstrlist(s: Seq<u8>) -> Option<(Seq<Seq<char>>, Seq<u8>)> {
    match sp_udec(s) {
        Some((n, rest)) => sp_titems_str(rest, n as nat),
        None => None,
    }
}

proof fn lemma_titems_str_round_trip(l: Seq<Seq<char>>, rest: Seq<u8>)
    requires
        crate::wire::strs_encodable(l),
    ensures
        sp_titems_str(enc_titems_str(l) + rest, l.len()) == Some((l, rest)),
    decreases l.len(),
{
    if l.len() == 0 {
        assert(enc_titems_str(l) + rest =~= rest);
        assert(l =~= Seq::<Seq<char>>::empty());
    } else {
        let tail = enc_titems_str(l.skip(1)) + rest;
        assert(enc_titems_str(l) + rest =~= seq![44u8] + (enc_tstr(l[0]) + tail));
        lemma_exact_round_trip(44u8, enc_tstr(l[0]) + tail);
        lemma_tstr_round_trip(l[0], tail);
        assert forall|i: int| 0 <= i < l.skip(1).len() implies encode_utf8(
            #[trigger] l.skip(1)[i],
        ).len() <= u64::MAX by {
            assert(l.skip(1)[i] == l[i + 1]);
        }
        lemma_titems_str_round_trip(l.skip(1), rest);
        assert(seq![l[0]] + l.skip(1) =~= l);
    }
}

/// An encoded string list followed by a non-digit parses back to itself.
pub proof fn lemma_tstrlist_round_trip(l: Seq<Seq<char>>, rest: Seq<u8>)
    requires
        crate::wire::strs_encodable(l),
        rest.len() > 0 && !is_digit(rest[0]),
    ensures
        sp_tstrlist(enc_tstrlist(l) + rest) == Some((l, rest)),
{
    let items = enc_titems_str(l) + rest;
    assert(enc_tstrlist(l) + rest =~= dec_u64(l.len() as u64) + items);
    if l.len() == 0 {
        assert(items =~= rest);
        lemma_udec_round_trip(l.len() as u64, items);
    } else {
        assert(items[0] == 44u8);
        lemma_udec_round_trip(l.len() as u64, items);
    }
    lemma_titems_str_round_trip(l, rest);
}

pub(crate) fn write_tstrlist(out: &mut Vec<u8>, v: &Vec<String>)
    ensures
        final(out)@ == old(out)@ + enc_tstrlist(v.deep_view()),
{
    let ghost dv = v.deep_view();
    let n = v.len();
    write_udec(out, n as u64);
    let ghost base = out@;
    proof {
        assert(dv.skip(0) =~= dv);
    }
    let mut i: usize = 0;
    while i < n
        invariant
            n == v@.len(),
            dv == v.deep_view(),
            i <= n,
            out@ + enc_titems_str(dv.skip(i as int)) == base + enc_titems_str(dv),
        decreases n - i,
    {
        proof {
            assert(dv.skip(i as int)[0] == dv[i as int]);
            assert(dv.skip(i as int).skip(1) =~= dv.skip(i as int + 1));
            assert(v[i as int]@ == dv[i as int]);
        }
        let ghost before = out@;
        out.push(44);
        write_tstr(out, &v[i]);
        proof {
            assert(out@ =~= before + (seq![44u8] + enc_tstr(dv[i as int])));
            assert(before + enc_titems_str(dv.skip(i as int)) =~= (before + (seq![44u8]
                + enc_tstr(dv[i as int]))) + enc_titems_str(dv.skip(i as int + 1)));
        }
        i += 1;
    }
    proof {
        assert(enc_titems_str(dv.skip(n as int)) =~= Seq::<u8>::empty());
        assert(out@ + Seq::<u8>::empty() =~= out@);
        assert(base + enc_titems_str(dv) =~= old(out)@ + enc_tstrlist(dv));
    }
}

pub(crate) fn read_tstrlist(buf: &Vec<u8>, pos: usize) -> (r: Result<
    (Vec<String>, usize),
    QosError,
>)
    requires
        pos <= buf@.len(),
    ensures
        match r {
            Ok((v, p2)) => pos <= p2 <= buf@.len() && sp_tstrlist(buf@.skip(pos as int)) == Some(
                (v.deep_view(), buf@.skip(p2 as int)),
            ),
            Err(e) => e == QosError::SerializationError && sp_tstrlist(
                buf@.skip(pos as int),
            ) is None,
        },
{
    let (n, p_items) = match read_udec(buf, pos) {
        Ok(v) => v,
        Err(e) => {
            return Err(e);
        },
    };
    let mut acc: Vec<String> = Vec::new();
    let mut p = p_items;
    let mut i: u64 = 0;
    proof {
        assert(acc.deep_view() =~= Seq::<Seq<char>>::empty());
        match sp_titems_str(buf@.skip(p_items as int), n as nat) {
            Some((cs, fin)) => {
                assert(acc.deep_view() + cs =~= cs);
            },
            None => {},
        }
    }
    while i < n
        invariant
            pos <= p_items <= p <= buf@.len(),
            i <= n,
            sp_udec(buf@.skip(pos as int)) == Some((n, buf@.skip(p_items as int))),
            sp_titems_str(buf@.skip(p_items as int), n as nat) == (match sp_titems_str(
                buf@.skip(p as int),
                (n - i) as nat,
            ) {
                Some((cs, fin)) => Some((acc.deep_view() + cs, fin)),
                None => None,
            }),
        decreases n - i,
    {
        let p1 = match read_exact(buf, p, 44) {
            Ok(v) => v,
            Err(e) => {
                return Err(e);
            },
        };
        let (s, p2) = match read_tstr(buf, p1) {
            Ok(v) => v,
            Err(e) => {
                return Err(e);
            },
        };
        let ghost prev = acc.deep_view();
        acc.push(s);
        proof {
            assert(acc.deep_view() =~= prev.push(s@));
            match sp_titems_str(buf@.skip(p2 as int), (n - i - 1) as nat) {
                Some((cs, fin)) => {
                    assert(prev + (seq![s@] + cs) =~= prev.push(s@) + cs);
                },
                None => {},
            }
        }
        p = p2;
        i = i + 1;
    }
    proof {
        assert(acc.deep_view() + Seq::<Seq<char>>::empty() =~= acc.deep_view());
    }
    Ok((acc, p))
}

pub open spec fn enc_titems_pair(l: Seq<crate::props::PropView>) -> Seq<u8>
    decreases l.len(),
{
    if l.len() == 0 {
        Seq::empty()
    } else {
        seq![44u8] + enc_tstr(l[0].0) + seq![61u8] + enc_tstr(l[0].1) + enc_titems_pair(l.skip(1))
    }
}

pub open spec fn enc_tpairlist(l: Seq<crate::props::PropView>) -> Seq<u8> {
    dec_u64(l.len() as u64) + enc_titems_pair(l)
}

pub open spec fn sp_titems_pair(s: Seq<u8>, n: nat) -> Option<
    (Seq<crate::props::PropView>, Seq<u8>),
>
    decreases n,
{
    if n == 0 {
        Some((Seq::empty(), s))
    } else {
        match sp_exact(s, 44) {
            Some(s1) => match sp_tstr(s1) {
                Some((k, s2)) => match sp_exact(s2, 61) {
                    Some(s3) => match sp_tstr(s3) {
                        Some((v, s4)) => match sp_titems_pair(s4, (n - 1) as nat) {
                            Some((ps, fin)) => Some((seq![(k, v)] + ps, fin)),
                            None => None,
                        },
                        None => None,
                    },
                    None => None,
                },
                None => None,
            },
            None => None,
        }
    }
}

pub open spec fn sp_tpairlist(s: Seq<u8>) -> Option<(Seq<crate::props::PropView>, Seq<u8>)> {
    match sp_udec(s) {
        Some((n, rest)) => sp_titems_pair(rest, n as nat),
        None => None,
    }
}

proof fn lemma_titems_pair_round_trip(l: Seq<crate::props::PropView>, rest: Seq<u8>)
    requires
        crate::wire::pairs_encodable(l),
    ensures
        sp_titems_pair(enc_titems_pair(l) + rest, l.len()) == Some((l, rest)),
    decreases l.len(),
{
    if l.len() == 0 {
        assert(enc_titems_pair(l) + rest =~= rest);
        assert(l =~= Seq::<crate::props::PropView>::empty());
    } else {
        let tail = enc_titems_pair(l.skip(1)) + rest;
        let after_eq = enc_tstr(l[0].1) + tail;
        let after_key = seq![61u8] + after_eq;
        assert(enc_titems_pair(l) + rest =~= seq![44u8] + (enc_tstr(l[0].0) + after_key));
        lemma_exact_round_trip(44u8, enc_tstr(l[0].0) + after_key);
        lemma_tstr_round_trip(l[0].0, after_key);
        lemma_exact_round_trip(61u8, after_eq);
        lemma_tstr_round_trip(l[0].1, tail);
        assert forall|i: int| 0 <= i < l.skip(1).len() implies encode_utf8(
            (#[trigger] l.skip(1)[i]).0,
        ).len() <= u64::MAX && encode_utf8(l.skip(1)[i].1).len() <= u64::MAX by {
            assert(l.skip(1)[i] == l[i + 1]);
        }
        lemma_titems_pair_round_trip(l.skip(1), rest);
        assert((l[0].0, l[0].1) == l[0]);
        assert(seq![l[0]] + l.skip(1) =~= l);
    }
}

/// An encoded name/value list followed by a non-digit parses back to itself.
pub proof fn lemma_tpairlist_round_trip(l: Seq<crate::props::PropView>, rest: Seq<u8>)
    requires
        crate::wire::pairs_encodable(l),
        rest.len() > 0 && !is_digit(rest[0]),
    ensures
        sp_tpairlist(enc_tpairlist(l) + rest) == Some((l, rest)),
{
    let items = enc_titems_pair(l) + rest;
    assert(enc_tpairlist(l) + rest =~= dec_u64(l.len() as u64) + items);
    if l.len() == 0 {
        assert(items =~= rest);
        lemma_udec_round_trip(l.len() as u64, items);
    } else {
        assert(items[0] == 44u8);
        lemma_udec_round_trip(l.len() as u64, items);
    }
    lemma_titems_pair_round_trip(l, rest);
}

pub(crate) fn write_tpairlist(out: &mut Vec<u8>, props: &crate::props::Properties)
    ensures
        final(out)@ == old(out)@ + enc_tpairlist(props.deep_view()),
{
    let ghost dv = props.deep_view();
    let n = props.entries.len();
    write_udec(out, n as u64);
    let ghost base = out@;
    proof {
        assert(dv.skip(0) =~= dv);
    }
    let mut i: usize = 0;
    while i < n
        invariant
            n == props.entries@.len(),
            dv == props.deep_view(),
            i <= n,
            out@ + enc_titems_pair(dv.skip(i as int)) == base + enc_titems_pair(dv),
        decreases n - i,
    {
        proof {
            assert(dv.skip(i as int)[0] == dv[i as int]);
            assert(dv.skip(i as int).skip(1) =~= dv.skip(i as int + 1));
            assert(dv[i as int] == (props.entries[i as int].key@, props.entries[i as int].value@));
        }
        let ghost before = out@;
        out.push(44);
        write_tstr(out, &props.entries[i].key);
        out.push(61);
        write_tstr(out, &props.entries[i].value);
        proof {
            assert(out@ =~= before + (seq![44u8] + enc_tstr(dv[i as int].0) + seq![61u8]
                + enc_tstr(dv[i as int].1)));
            assert(before + enc_titems_pair(dv.skip(i as int)) =~= (before + (seq![44u8]
                + enc_tstr(dv[i as int].0) + seq![61u8] + enc_tstr(dv[i as int].1)))
                + enc_titems_pair(dv.skip(i as int + 1)));
        }
        i += 1;
    }
    proof {
        assert(enc_titems_pair(dv.skip(n as int)) =~= Seq::<u8>::empty());
        assert(out@ + Seq::<u8>::empty() =~= out@);
        assert(base + enc_titems_pair(dv) =~= old(out)@ + enc_tpairlist(dv));
    }
}

pub(crate) fn read_tpairlist(buf: &Vec<u8>, pos: usize) -> (r: Result<
    (crate::props::Properties, usize),
    QosError,
>)
    requires
        pos <= buf@.len(),
    ensures
        match r {
            Ok((v, p2)) => pos <= p2 <= buf@.len() && sp_tpairlist(buf@.skip(pos as int)) == Some(
                (v.deep_view(), buf@.skip(p2 as int)),
            ),
            Err(e) => e == QosError::SerializationError && sp_tpairlist(
                buf@.skip(pos as int),
            ) is None,
        },
{
    let (n, p_items) = match read_udec(buf, pos) {
        Ok(v) => v,
        Err(e) => {
            return Err(e);
        },
    };
    let mut acc: Vec<crate::props::Property> = Vec::new();
    let mut p = p_items;
    let mut i: u64 = 0;
    proof {
        assert(acc.deep_view() =~= Seq::<crate::props::PropView>::empty());
        match sp_titems_pair(buf@.skip(p_items as int), n as nat) {
            Some((ps, fin)) => {
                assert(acc.deep_view() + ps =~= ps);
            },
            None => {},
        }
    }
    while i < n
        invariant
            pos <= p_items <= p <= buf@.len(),
            i <= n,
            sp_udec(buf@.skip(pos as int)) == Some((n, buf@.skip(p_items as int))),
            sp_titems_pair(buf@.skip(p_items as int), n as nat) == (match sp_titems_pair(
                buf@.skip(p as int),
                (n - i) as nat,
            ) {
                Some((ps, fin)) => Some((acc.deep_view() + ps, fin)),
                None => None,
            }),
        decreases n - i,
    {
        let p1 = match read_exact(buf, p, 44) {
            Ok(v) => v,
            Err(e) => {
                return Err(e);
            },
        };
        let (key, p2) = match read_tstr(buf, p1) {
            Ok(v) => v,
            Err(e) => {
                return Err(e);
            },
        };
        let p3 = match read_exact(buf, p2, 61) {
            Ok(v) => v,
            Err(e) => {
                return Err(e);
            },
        };
        let (value, p4) = match read_tstr(buf, p3) {
            Ok(v) => v,
            Err(e) => {
                return Err(e);
            },
        };
        let ghost prev = acc.deep_view();
        let ghost pair = (key@, value@);
        acc.push(crate::props::Property { key, value });
        proof {
            assert(acc.deep_view() =~= prev.push(pair));
            match sp_titems_pair(buf@.skip(p4 as int), (n - i - 1) as nat) {
                Some((ps, fin)) => {
                    assert(prev + (seq![pair] + ps) =~= prev.push(pair) + ps);
                },
                None => {},
            }
        }
        p = p4;
        i = i + 1;
    }
    proof {
        assert(acc.deep_view() + Seq::<crate::props::PropView>::empty() =~= acc.deep_view());
    }
    Ok((crate::props::Properties { entries: acc }, p))
}

pub open spec fn enc_titems_u16(l: Seq<u16>) -> Seq<u8>
    decreases l.len(),
{
    if l.len() == 0 {
        Seq::empty()
    } else {
        seq![44u8] + dec_u64(l[0] as u64) + enc_titems_u16(l.skip(1))
    }
}

pub open spec fn enc_tu16list(l: Seq<u16>) -> Seq<u8> {
    dec_u64(l.len() as u64) + enc_titems_u16(l)
}

pub open spec fn sp_titems_u16(s: Seq<u8>, n: nat) -> Option<(Seq<u16>, Seq<u8>)>
    decreases n,
{
    if n == 0 {
        Some((Seq::empty(), s))
    } else {
        match sp_exact(s, 44) {
            Some(s1) => match sp_udec(s1) {
                Some((u, s2)) => if u <= u16::MAX {
                    match sp_titems_u16(s2, (n - 1) as nat) {
                        Some((vs, fin)) => Some((seq![u as u16] + vs, fin)),
                        None => None,
                    }
                } else {
                    None
                },
                None => None,
            },
            None => None,
        }
    }
}

pub open spec fn sp_tu16list(s: Seq<u8>) -> Option<(Seq<u16>, Seq<u8>)> {
    match sp_udec(s) {
        Some((n, rest)) => sp_titems_u16(rest, n as nat),
        None => None,
    }
}

proof fn lemma_titems_u16_round_trip(l: Seq<u16>, rest: Seq<u8>)
    requires
        rest.len() > 0 && !is_digit(rest[0]),
    ensures
        sp_titems_u16(enc_titems_u16(l) + rest, l.len()) == Some((l, rest)),
    decreases l.len(),
{
    if l.len() == 0 {
        assert(enc_titems_u16(l) + rest =~= rest);
        assert(l =~= Seq::<u16>::empty());
    } else {
        let tail = enc_titems_u16(l.skip(1)) + rest;
        assert(enc_titems_u16(l) + rest =~= seq![44u8] + (dec_u64(l[0] as u64) + tail));
        lemma_exact_round_trip(44u8, dec_u64(l[0] as u64) + tail);
        if l.skip(1).len() == 0 {
            assert(tail =~= rest);
        } else {
            assert(tail[0] == 44u8);
        }
        lemma_udec_round_trip(l[0] as u64, tail);
        lemma_titems_u16_round_trip(l.skip(1), rest);
        assert(seq![l[0]] + l.skip(1) =~= l);
    }
}

/// An encoded identifier list followed by a non-digit parses back to itself.
pub proof fn lemma_tu16list_round_trip(l: Seq<u16>, rest: Seq<u8>)
    requires
        l.len() <= u64::MAX,
        rest.len() > 0 && !is_digit(rest[0]),
    ensures
        sp_tu16list(enc_tu16list(l) + rest) == Some((l, rest)),
{
    let items = enc_titems_u16(l) + rest;
    assert(enc_tu16list(l) + rest =~= dec_u64(l.len() as u64) + items);
    if l.len() == 0 {
        assert(items =~= rest);
        lemma_udec_round_trip(l.len() as u64, items);
    } else {
        assert(items[0] == 44u8);
        lemma_udec_round_trip(l.len() as u64, items);
    }
    lemma_titems_u16_round_trip(l, rest);
}

pub(crate) fn write_tu16list(out: &mut Vec<u8>, v: &Vec<u16>)
    ensures
        final(out)@ == old(out)@ + enc_tu16list(v@),
{
    let ghost dv = v@;
    let n = v.len();
    write_udec(out, n as u64);
    let ghost base = out@;
    proof {
        assert(dv.skip(0) =~= dv);
    }
    let mut i: usize = 0;
    while i < n
        invariant
            n == v@.len(),
            dv == v@,
            i <= n,
            out@ + enc_titems_u16(dv.skip(i as int)) == base + enc_titems_u16(dv),
        decreases n - i,
    {
        proof {
            assert(dv.skip(i as int)[0] == dv[i as int]);
            assert(dv.skip(i as int).skip(1) =~= dv.skip(i as int + 1));
        }
        let ghost before = out@;
        out.push(44);
        write_udec(out, v[i] as u64);
        proof {
            assert(out@ =~= before + (seq![44u8] + dec_u64(dv[i as int] as u64)));
            assert(before + enc_titems_u16(dv.skip(i as int)) =~= (before + (seq![44u8] + dec_u64(
                dv[i as int] as u64,
            ))) + enc_titems_u16(dv.skip(i as int + 1)));
        }
        i += 1;
    }
    proof {
        assert(enc_titems_u16(dv.skip(n as int)) =~= Seq::<u8>::empty());
        assert(out@ + Seq::<u8>::empty() =~= out@);
        assert(base + enc_titems_u16(dv) =~= old(out)@ + enc_tu16list(dv));
    }
}

pub(crate) fn read_tu16list(buf: &Vec<u8>, pos: usize) -> (r: Result<(Vec<u16>, usize), QosError>)
    requires
        pos <= buf@.len(),
    ensures
        match r {
            Ok((v, p2)) => pos <= p2 <= buf@.len() && sp_tu16list(buf@.skip(pos as int)) == Some(
                (v@, buf@.skip(p2 as int)),
            ),
            Err(e) => e == QosError::SerializationError && sp_tu16list(
                buf@.skip(pos as int),
            ) is None,
        },
{
    let (n, p_items) = match read_udec(buf, pos) {
        Ok(v) => v,
        Err(e) => {
            return Err(e);
        },
    };
    let mut acc: Vec<u16> = Vec::new();
    let mut p = p_items;
    let mut i: u64 = 0;
    proof {
        assert(acc@ =~= Seq::<u16>::empty());
        match sp_titems_u16(buf@.skip(p_items as int), n as nat) {
            Some((vs, fin)) => {
                assert(acc@ + vs =~= vs);
            },
            None => {},
        }
    }
    while i < n
        invariant
            pos <= p_items <= p <= buf@.len(),
            i <= n,
            sp_udec(buf@.skip(pos as int)) == Some((n, buf@.skip(p_items as int))),
            sp_titems_u16(buf@.skip(p_items as int), n as nat) == (match sp_titems_u16(
                buf@.skip(p as int),
                (n - i) as nat,
            ) {
                Some((vs, fin)) => Some((acc@ + vs, fin)),
                None => None,
            }),
        decreases n - i,
    {
        let p1 = match read_exact(buf, p, 44) {
            Ok(v) => v,
            Err(e) => {
                return Err(e);
            },
        };
        let (u, p2) = match read_udec(buf, p1) {
            Ok(v) => v,
            Err(e) => {
                return Err(e);
            },
        };
        if u > u16::MAX as u64 {
            return Err(QosError::SerializationError);
        }
        let ghost prev = acc@;
        acc.push(u as u16);
        proof {
            assert(acc@ =~= prev.push(u as u16));
            match sp_titems_u16(buf@.skip(p2 as int), (n - i - 1) as nat) {
                Some((vs, fin)) => {
                    assert(prev + (seq![u as u16] + vs) =~= prev.push(u as u16) + vs);
                },
                None => {},
            }
        }
        p = p2;
        i = i + 1;
    }
    proof {
        assert(acc@ + Seq::<u16>::empty() =~= acc@);
    }
    Ok((acc, p))
}


} // verus!
