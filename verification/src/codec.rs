//! Primitive byte codec: little-endian unsigned integers, booleans and
//! length-prefixed byte strings, with decoders that consume a prefix of a
//! byte sequence and return the remainder.
//!
//! Every wire shape of the protocol is built from these primitives. The
//! decoders are total on arbitrary bytes (they return `None` on any input
//! that is not a valid encoding), which is what lets the dispatcher classify
//! an untyped envelope by speculative decode-and-fallback.

use vstd::prelude::*;

verus! {

// ---------------------------------------------------------------------------
// unsigned integers, little endian
// ---------------------------------------------------------------------------

pub open spec fn senc_u64(v: u64) -> Seq<u8> {
    seq![
        (v & 0xff) as u8,
        ((v >> 8) & 0xff) as u8,
        ((v >> 16) & 0xff) as u8,
        ((v >> 24) & 0xff) as u8,
        ((v >> 32) & 0xff) as u8,
        ((v >> 40) & 0xff) as u8,
        ((v >> 48) & 0xff) as u8,
        ((v >> 56) & 0xff) as u8,
    ]
}

pub open spec fn u64_from_le(b: Seq<u8>) -> u64
    recommends
        b.len() >= 8,
{
    (b[0] as u64)
        | ((b[1] as u64) << 8)
        | ((b[2] as u64) << 16)
        | ((b[3] as u64) << 24)
        | ((b[4] as u64) << 32)
        | ((b[5] as u64) << 40)
        | ((b[6] as u64) << 48)
        | ((b[7] as u64) << 56)
}

pub open spec fn sdec_u64(b: Seq<u8>) -> Option<(u64, Seq<u8>)> {
    if b.len() >= 8 {
        Some((u64_from_le(b), b.skip(8)))
    } else {
        None
    }
}

pub proof fn lemma_u64_roundtrip(v: u64, rest: Seq<u8>)
    ensures
        sdec_u64(senc_u64(v) + rest) == Some((v, rest)),
{
    let b = senc_u64(v) + rest;
    assert(b[0] == (v & 0xff) as u8);
    assert(b[1] == ((v >> 8) & 0xff) as u8);
    assert(b[2] == ((v >> 16) & 0xff) as u8);
    assert(b[3] == ((v >> 24) & 0xff) as u8);
    assert(b[4] == ((v >> 32) & 0xff) as u8);
    assert(b[5] == ((v >> 40) & 0xff) as u8);
    assert(b[6] == ((v >> 48) & 0xff) as u8);
    assert(b[7] == ((v >> 56) & 0xff) as u8);
    assert((((v & 0xff) as u8) as u64)
        | (((((v >> 8) & 0xff) as u8) as u64) << 8)
        | (((((v >> 16) & 0xff) as u8) as u64) << 16)
        | (((((v >> 24) & 0xff) as u8) as u64) << 24)
        | (((((v >> 32) & 0xff) as u8) as u64) << 32)
        | (((((v >> 40) & 0xff) as u8) as u64) << 40)
        | (((((v >> 48) & 0xff) as u8) as u64) << 48)
        | (((((v >> 56) & 0xff) as u8) as u64) << 56) == v) by (bit_vector);
    assert(u64_from_le(b) == v);
    assert(b.skip(8) =~= rest);
}

pub fn enc_u64(out: &mut Vec<u8>, v: u64)
    ensures
        final(out)@ == old(out)@ + senc_u64(v),
{
    proof {
        assert(v & 0xff <= 0xff && (v >> 8) & 0xff <= 0xff && (v >> 16) & 0xff <= 0xff
            && (v >> 24) & 0xff <= 0xff && (v >> 32) & 0xff <= 0xff && (v >> 40) & 0xff <= 0xff
            && (v >> 48) & 0xff <= 0xff && (v >> 56) & 0xff <= 0xff) by (bit_vector);
    }
    out.push((v & 0xff) as u8);
    out.push(((v >> 8) & 0xff) as u8);
    out.push(((v >> 16) & 0xff) as u8);
    out.push(((v >> 24) & 0xff) as u8);
    out.push(((v >> 32) & 0xff) as u8);
    out.push(((v >> 40) & 0xff) as u8);
    out.push(((v >> 48) & 0xff) as u8);
    out.push(((v >> 56) & 0xff) as u8);
    proof {
        assert(out@ =~= old(out)@ + senc_u64(v));
    }
}

pub fn dec_u64(b: &Vec<u8>, i: usize) -> (r: Option<(u64, usize)>)
    requires
        i <= b@.len(),
    ensures
        match r {
            Some((v, j)) => i <= j <= b@.len() && sdec_u64(b@.skip(i as int)) == Some((
                v,
                b@.skip(j as int),
            )),
            None => sdec_u64(b@.skip(i as int)) is None,
        },
{
    if b.len() - i >= 8 {
        let x0 = b[i];
        let x1 = b[i + 1];
        let x2 = b[i + 2];
        let x3 = b[i + 3];
        let x4 = b[i + 4];
        let x5 = b[i + 5];
        let x6 = b[i + 6];
        let x7 = b[i + 7];
        let v: u64 = (x0 as u64) | ((x1 as u64) << 8) | ((x2 as u64) << 16) | ((x3 as u64) << 24)
            | ((x4 as u64) << 32) | ((x5 as u64) << 40) | ((x6 as u64) << 48) | ((x7 as u64)
            << 56);
        proof {
            let s = b@.skip(i as int);
            assert(s[0] == x0 && s[1] == x1 && s[2] == x2 && s[3] == x3 && s[4] == x4 && s[5] == x5
                && s[6] == x6 && s[7] == x7);
            assert(u64_from_le(s) == v);
            assert(s.skip(8) =~= b@.skip(i + 8));
        }
        Some((v, i + 8))
    } else {
        proof {
            assert(b@.skip(i as int).len() < 8);
        }
        None
    }
}

// ---------------------------------------------------------------------------
// u32 / u16 / u8
// ---------------------------------------------------------------------------

pub open spec fn senc_u32(v: u32) -> Seq<u8> {
    seq![
        (v & 0xff) as u8,
        ((v >> 8) & 0xff) as u8,
        ((v >> 16) & 0xff) as u8,
        ((v >> 24) & 0xff) as u8,
    ]
}

pub open spec fn u32_from_le(b: Seq<u8>) -> u32
    recommends
        b.len() >= 4,
{
    (b[0] as u32) | ((b[1] as u32) << 8) | ((b[2] as u32) << 16) | ((b[3] as u32) << 24)
}

pub open spec fn sdec_u32(b: Seq<u8>) -> Option<(u32, Seq<u8>)> {
    if b.len() >= 4 {
        Some((u32_from_le(b), b.skip(4)))
    } else {
        None
    }
}

pub proof fn lemma_u32_roundtrip(v: u32, rest: Seq<u8>)
    ensures
        sdec_u32(senc_u32(v) + rest) == Some((v, rest)),
{
    let b = senc_u32(v) + rest;
    assert(b[0] == (v & 0xff) as u8);
    assert(b[1] == ((v >> 8) & 0xff) as u8);
    assert(b[2] == ((v >> 16) & 0xff) as u8);
    assert(b[3] == ((v >> 24) & 0xff) as u8);
    assert((((v & 0xff) as u8) as u32)
        | (((((v >> 8) & 0xff) as u8) as u32) << 8)
        | (((((v >> 16) & 0xff) as u8) as u32) << 16)
        | (((((v >> 24) & 0xff) as u8) as u32) << 24) == v) by (bit_vector);
    assert(u32_from_le(b) == v);
    assert(b.skip(4) =~= rest);
}

pub fn enc_u32(out: &mut Vec<u8>, v: u32)
    ensures
        final(out)@ == old(out)@ + senc_u32(v),
{
    proof {
        assert(v & 0xff <= 0xff && (v >> 8) & 0xff <= 0xff && (v >> 16) & 0xff <= 0xff
            && (v >> 24) & 0xff <= 0xff) by (bit_vector);
    }
    out.push((v & 0xff) as u8);
    out.push(((v >> 8) & 0xff) as u8);
    out.push(((v >> 16) & 0xff) as u8);
    out.push(((v >> 24) & 0xff) as u8);
    proof {
        assert(out@ =~= old(out)@ + senc_u32(v));
    }
}

pub fn dec_u32(b: &Vec<u8>, i: usize) -> (r: Option<(u32, usize)>)
    requires
        i <= b@.len(),
    ensures
        match r {
            Some((v, j)) => i <= j <= b@.len() && sdec_u32(b@.skip(i as int)) == Some((
                v,
                b@.skip(j as int),
            )),
            None => sdec_u32(b@.skip(i as int)) is None,
        },
{
    if b.len() - i >= 4 {
        let x0 = b[i];
        let x1 = b[i + 1];
        let x2 = b[i + 2];
        let x3 = b[i + 3];
        let v: u32 = (x0 as u32) | ((x1 as u32) << 8) | ((x2 as u32) << 16) | ((x3 as u32) << 24);
        proof {
            let s = b@.skip(i as int);
            assert(s[0] == x0 && s[1] == x1 && s[2] == x2 && s[3] == x3);
            assert(u32_from_le(s) == v);
            assert(s.skip(4) =~= b@.skip(i + 4));
        }
        Some((v, i + 4))
    } else {
        proof {
            assert(b@.skip(i as int).len() < 4);
        }
        None
    }
}

pub open spec fn senc_u16(v: u16) -> Seq<u8> {
    seq![(v & 0xff) as u8, ((v >> 8) & 0xff) as u8]
}

pub open spec fn u16_from_le(b: Seq<u8>) -> u16
    recommends
        b.len() >= 2,
{
    (b[0] as u16) | ((b[1] as u16) << 8)
}

pub open spec fn sdec_u16(b: Seq<u8>) -> Option<(u16, Seq<u8>)> {
    if b.len() >= 2 {
        Some((u16_from_le(b), b.skip(2)))
    } else {
        None
    }
}

pub proof fn lemma_u16_roundtrip(v: u16, rest: Seq<u8>)
    ensures
        sdec_u16(senc_u16(v) + rest) == Some((v, rest)),
{
    let b = senc_u16(v) + rest;
    assert(b[0] == (v & 0xff) as u8);
    assert(b[1] == ((v >> 8) & 0xff) as u8);
    assert((((v & 0xff) as u8) as u16) | (((((v >> 8) & 0xff) as u8) as u16) << 8) == v)
        by (bit_vector);
    assert(u16_from_le(b) == v);
    assert(b.skip(2) =~= rest);
}

pub fn enc_u16(out: &mut Vec<u8>, v: u16)
    ensures
        final(out)@ == old(out)@ + senc_u16(v),
{
    proof {
        assert(v & 0xff <= 0xff && (v >> 8) & 0xff <= 0xff) by (bit_vector);
    }
    out.push((v & 0xff) as u8);
    out.push(((v >> 8) & 0xff) as u8);
    proof {
        assert(out@ =~= old(out)@ + senc_u16(v));
    }
}

pub fn dec_u16(b: &Vec<u8>, i: usize) -> (r: Option<(u16, usize)>)
    requires
        i <= b@.len(),
    ensures
        match r {
            Some((v, j)) => i <= j <= b@.len() && sdec_u16(b@.skip(i as int)) == Some((
                v,
                b@.skip(j as int),
            )),
            None => sdec_u16(b@.skip(i as int)) is None,
        },
{
    if b.len() - i >= 2 {
        let x0 = b[i];
        let x1 = b[i + 1];
        let v: u16 = (x0 as u16) | ((x1 as u16) << 8);
        proof {
            let s = b@.skip(i as int);
            assert(s[0] == x0 && s[1] == x1);
            assert(u16_from_le(s) == v);
            assert(s.skip(2) =~= b@.skip(i + 2));
        }
        Some((v, i + 2))
    } else {
        proof {
            assert(b@.skip(i as int).len() < 2);
        }
        None
    }
}

pub open spec fn senc_u8(v: u8) -> Seq<u8> {
    seq![v]
}

pub open spec fn sdec_u8(b: Seq<u8>) -> Option<(u8, Seq<u8>)> {
    if b.len() >= 1 {
        Some((b[0], b.skip(1)))
    } else {
        None
    }
}

pub proof fn lemma_u8_roundtrip(v: u8, rest: Seq<u8>)
    ensures
        sdec_u8(senc_u8(v) + rest) == Some((v, rest)),
{
    let b = senc_u8(v) + rest;
    assert(b[0] == v);
    assert(b.skip(1) =~= rest);
}

pub fn enc_u8(out: &mut Vec<u8>, v: u8)
    ensures
        final(out)@ == old(out)@ + senc_u8(v),
{
    out.push(v);
    proof {
        assert(out@ =~= old(out)@ + senc_u8(v));
    }
}

pub fn dec_u8(b: &Vec<u8>, i: usize) -> (r: Option<(u8, usize)>)
    requires
        i <= b@.len(),
    ensures
        match r {
            Some((v, j)) => i <= j <= b@.len() && sdec_u8(b@.skip(i as int)) == Some((
                v,
                b@.skip(j as int),
            )),
            None => sdec_u8(b@.skip(i as int)) is None,
        },
{
    if b.len() - i >= 1 {
        let v = b[i];
        proof {
            let s = b@.skip(i as int);
            assert(s[0] == v);
            assert(s.skip(1) =~= b@.skip(i + 1));
        }
        Some((v, i + 1))
    } else {
        None
    }
}

// ---------------------------------------------------------------------------
// booleans: one byte, 0 or 1; anything else is not a valid encoding
// ---------------------------------------------------------------------------

pub open spec fn senc_bool(v: bool) -> Seq<u8> {
    seq![if v { 1u8 } else { 0u8 }]
}

pub open spec fn sdec_bool(b: Seq<u8>) -> Option<(bool, Seq<u8>)> {
    if b.len() >= 1 && (b[0] == 0 || b[0] == 1) {
        Some((b[0] == 1, b.skip(1)))
    } else {
        None
    }
}

pub proof fn lemma_bool_roundtrip(v: bool, rest: Seq<u8>)
    ensures
        sdec_bool(senc_bool(v) + rest) == Some((v, rest)),
{
    let b = senc_bool(v) + rest;
    assert(b[0] == if v { 1u8 } else { 0u8 });
    assert(b.skip(1) =~= rest);
}

pub fn enc_bool(out: &mut Vec<u8>, v: bool)
    ensures
        final(out)@ == old(out)@ + senc_bool(v),
{
    out.push(if v { 1u8 } else { 0u8 });
    proof {
        assert(out@ =~= old(out)@ + senc_bool(v));
    }
}

pub fn dec_bool(b: &Vec<u8>, i: usize) -> (r: Option<(bool, usize)>)
    requires
        i <= b@.len(),
    ensures
        match r {
            Some((v, j)) => i <= j <= b@.len() && sdec_bool(b@.skip(i as int)) == Some((
                v,
                b@.skip(j as int),
            )),
            None => sdec_bool(b@.skip(i as int)) is None,
        },
{
    if b.len() - i >= 1 && (b[i] == 0 || b[i] == 1) {
        let v = b[i] == 1;
        proof {
            let s = b@.skip(i as int);
            assert(s[0] == b@[i as int]);
            assert(s.skip(1) =~= b@.skip(i + 1));
        }
        Some((v, i + 1))
    } else {
        proof {
            let s = b@.skip(i as int);
            if s.len() >= 1 {
                assert(s[0] == b@[i as int]);
            }
        }
        None
    }
}

// ---------------------------------------------------------------------------
// byte strings: u64 length prefix, then the raw bytes
// ---------------------------------------------------------------------------

pub open spec fn senc_bytes(s: Seq<u8>) -> Seq<u8> {
    senc_u64(s.len() as u64) + s
}

pub open spec fn sdec_bytes(b: Seq<u8>) -> Option<(Seq<u8>, Seq<u8>)> {
    match sdec_u64(b) {
        None => None,
        Some((n, r)) => if r.len() >= n {
            Some((r.take(n as int), r.skip(n as int)))
        } else {
            None
        },
    }
}

pub proof fn lemma_bytes_roundtrip(s: Seq<u8>, rest: Seq<u8>)
    requires
        s.len() <= u64::MAX,
    ensures
        sdec_bytes(senc_bytes(s) + rest) == Some((s, rest)),
{
    let n = s.len() as u64;
    let b = senc_bytes(s) + rest;
    assert(b =~= senc_u64(n) + (s + rest));
    lemma_u64_roundtrip(n, s + rest);
    assert((s + rest).take(n as int) =~= s);
    assert((s + rest).skip(n as int) =~= rest);
}

pub fn enc_bytes(out: &mut Vec<u8>, s: &Vec<u8>)
    ensures
        final(out)@ == old(out)@ + senc_bytes(s@),
{
    enc_u64(out, s.len() as u64);
    let ghost mid = out@;
    let mut k: usize = 0;
    while k < s.len()
        invariant
            k <= s@.len(),
            out@ == mid + s@.take(k as int),
        decreases s@.len() - k,
    {
        out.push(s[k]);
        proof {
            assert(out@ =~= mid + s@.take(k + 1));
        }
        k = k + 1;
    }
    proof {
        assert(s@.take(s@.len() as int) =~= s@);
        assert(out@ =~= old(out)@ + senc_bytes(s@));
    }
}

pub fn dec_bytes(b: &Vec<u8>, i: usize) -> (r: Option<(Vec<u8>, usize)>)
    requires
        i <= b@.len(),
    ensures
        match r {
            Some((v, j)) => i <= j <= b@.len() && sdec_bytes(b@.skip(i as int)) == Some((
                v@,
                b@.skip(j as int),
            )),
            None => sdec_bytes(b@.skip(i as int)) is None,
        },
{
    match dec_u64(b, i) {
        None => None,
        Some((n, j)) => {
            if n <= (b.len() - j) as u64 {
                let n_us = n as usize;
                let end: usize = j + n_us;
                let mut v: Vec<u8> = Vec::new();
                let mut k: usize = 0;
                while k < n_us
                    invariant
                        k <= n_us,
                        end == j + n_us,
                        end <= b@.len(),
                        v@ == b@.skip(j as int).take(k as int),
                    decreases n_us - k,
                {
                    v.push(b[j + k]);
                    proof {
                        assert(b@.skip(j as int)[k as int] == b@[j + k]);
                        assert(v@ =~= b@.skip(j as int).take(k + 1));
                    }
                    k = k + 1;
                }
                proof {
                    let s = b@.skip(i as int);
                    let rr = b@.skip(j as int);
                    assert(sdec_u64(s) == Some((n, rr)));
                    assert(rr.len() >= n);
                    assert(rr.skip(n as int) =~= b@.skip(j + n_us));
                }
                Some((v, j + n_us))
            } else {
                proof {
                    let s = b@.skip(i as int);
                    let rr = b@.skip(j as int);
                    assert(sdec_u64(s) == Some((n, rr)));
                    assert(rr.len() < n);
                }
                None
            }
        },
    }
}

} // verus!
