//! Unsigned multi-precision integers.
//!
//! On the wire an integer is a length-prefixed byte string that holds its
//! magnitude, most significant byte first, without leading zero bytes.  Where
//! the first byte of the magnitude has its high bit set, one zero byte goes
//! before it, so that the number does not read as negative.  Zero has no
//! bytes at all.

use crate::error::Error;
use crate::parsedump::{
    dump_bytes, lemma_be_u32, lemma_be_u32_prefix, lemma_parse_dump_bytes, parse_bytes, put_slice,
    put_u32, put_u8, spec_be_u32, spec_dump_bytes, spec_parse_bytes, spec_u32_be, ParseDump,
};
use vstd::prelude::*;
use vstd::slice::{slice_subrange, slice_to_vec};

verus! {

/// The number that the bytes stand for, most significant byte first.
pub open spec fn spec_be_nat(b: Seq<u8>) -> nat
    decreases b.len(),
{
    if b.len() == 0 {
        0
    } else {
        spec_be_nat(b.drop_last()) * 256 + b.last() as nat
    }
}

/// The shortest bytes that stand for `v`, most significant byte first.
pub open spec fn spec_nat_be(v: nat) -> Seq<u8>
    decreases v,
{
    if v == 0 {
        Seq::<u8>::empty()
    } else {
        spec_nat_be(v / 256).push((v % 256) as u8)
    }
}

/// The bytes without their leading zero bytes.
pub open spec fn spec_strip(b: Seq<u8>) -> Seq<u8>
    decreases b.len(),
{
    if b.len() > 0 && b[0] == 0 {
        spec_strip(b.skip(1))
    } else {
        b
    }
}

/// Whether the bytes have no leading zero byte.
pub open spec fn is_minimal(b: Seq<u8>) -> bool {
    b.len() == 0 || b[0] != 0
}

/// The content of the field for a magnitude without leading zeros: the
/// magnitude, behind one zero byte where its high bit is set.
pub open spec fn spec_guard(m: Seq<u8>) -> Seq<u8> {
    if m.len() > 0 && m[0] >= 0x80 {
        seq![0u8] + m
    } else {
        m
    }
}

/// Whether the bytes are the content of the field of some number: nothing,
/// or a first byte from 1 to 127, or a zero byte before a byte with the high
/// bit set.
pub open spec fn is_canonical(c: Seq<u8>) -> bool {
    c.len() == 0 || (0 < c[0] < 0x80) || (c[0] == 0 && c.len() >= 2 && c[1] >= 0x80)
}

/// A leading zero byte does not change the number.
pub proof fn lemma_be_nat_leading_zero(b: Seq<u8>)
    requires
        b.len() > 0,
        b[0] == 0,
    ensures
        spec_be_nat(b) == spec_be_nat(b.skip(1)),
    decreases b.len(),
{
    if b.len() == 1 {
        assert(b.drop_last() =~= Seq::<u8>::empty());
        assert(b.skip(1) =~= Seq::<u8>::empty());
        assert(spec_be_nat(b.drop_last()) == 0);
    } else {
        lemma_be_nat_leading_zero(b.drop_last());
        assert(b.drop_last().skip(1) =~= b.skip(1).drop_last());
        assert(b.skip(1).last() == b.last());
    }
}

/// Stripping leading zero bytes does not change the number, and leaves no
/// leading zero byte.
pub proof fn lemma_strip(b: Seq<u8>)
    ensures
        spec_be_nat(spec_strip(b)) == spec_be_nat(b),
        is_minimal(spec_strip(b)),
        spec_strip(b).len() <= b.len(),
    decreases b.len(),
{
    if b.len() > 0 && b[0] == 0 {
        lemma_strip(b.skip(1));
        lemma_be_nat_leading_zero(b);
    }
}

/// The bytes from the first non-zero byte on are the stripped bytes.
pub proof fn lemma_strip_skip(b: Seq<u8>, k: int)
    requires
        0 <= k <= b.len(),
        forall|j: int| 0 <= j < k ==> b[j] == 0,
        k == b.len() || b[k] != 0,
    ensures
        spec_strip(b) == b.skip(k),
    decreases k,
{
    if k == 0 {
        assert(b.skip(0) =~= b);
    } else {
        lemma_strip_skip(b.skip(1), k - 1);
        assert(b.skip(1).skip(k - 1) =~= b.skip(k));
    }
}

/// The shortest bytes of a number stand for that number.
pub proof fn lemma_be_nat_of_nat_be(v: nat)
    ensures
        spec_be_nat(spec_nat_be(v)) == v,
        is_minimal(spec_nat_be(v)),
    decreases v,
{
    if v != 0 {
        lemma_be_nat_of_nat_be(v / 256);
        let s = spec_nat_be(v / 256).push((v % 256) as u8);
        assert(s.drop_last() =~= spec_nat_be(v / 256));
        if v / 256 == 0 {
            assert(s[0] == (v % 256) as u8);
        } else {
            assert(s[0] == spec_nat_be(v / 256)[0]);
        }
    }
}

/// Bytes without a leading zero byte are the shortest bytes of their number.
pub proof fn lemma_nat_be_of_be_nat(b: Seq<u8>)
    requires
        is_minimal(b),
    ensures
        spec_nat_be(spec_be_nat(b)) == b,
        b.len() > 0 ==> spec_be_nat(b) > 0,
    decreases b.len(),
{
    if b.len() > 0 {
        let init = b.drop_last();
        if init.len() > 0 {
            assert(init[0] == b[0]);
        }
        lemma_nat_be_of_be_nat(init);
        let v = spec_be_nat(b);
        assert(v == spec_be_nat(init) * 256 + b.last() as nat);
        assert(v / 256 == spec_be_nat(init));
        assert(v % 256 == b.last() as nat);
        assert(v > 0);
        assert(spec_nat_be(v) =~= b);
    }
}

/// The guarding zero byte does not change the number.
pub proof fn lemma_guard(m: Seq<u8>)
    ensures
        spec_be_nat(spec_guard(m)) == spec_be_nat(m),
        is_minimal(m) ==> is_canonical(spec_guard(m)),
        is_minimal(m) ==> spec_strip(spec_guard(m)) == m,
{
    if m.len() > 0 && m[0] >= 0x80 {
        let g = seq![0u8] + m;
        lemma_be_nat_leading_zero(g);
        assert(g.skip(1) =~= m);
        assert(spec_strip(g) == spec_strip(g.skip(1)));
    }
}

/// An unsigned integer of any size.  The field holds its magnitude, most
/// significant byte first; leading zero bytes are allowed and mean nothing.
#[derive(Clone, Debug, PartialEq, Eq)]
pub struct UnsignedMpInt(pub Vec<u8>);

impl View for UnsignedMpInt {
    type V = nat;

    open spec fn view(&self) -> nat {
        spec_be_nat(self.0@)
    }
}

/// The number in the field at the start of `bytes` and the bytes that the
/// field takes.
#[verifier::opaque]
pub open spec fn spec_parse_mpint(bytes: Seq<u8>) -> Result<(nat, nat), Error> {
    match spec_parse_bytes(bytes) {
        Err(e) => Err(e),
        Ok((content, n)) => Ok((spec_be_nat(content), n)),
    }
}

/// The field of the number `v`: its shortest bytes, guarded, behind their
/// length.
#[verifier::opaque]
pub open spec fn spec_dump_mpint(v: nat) -> Result<Seq<u8>, Error> {
    spec_dump_bytes(spec_guard(spec_nat_be(v)))
}

impl ParseDump for UnsignedMpInt {
    open spec fn spec_parse(bytes: Seq<u8>) -> Result<(nat, nat), Error> {
        spec_parse_mpint(bytes)
    }

    open spec fn spec_dump(v: nat) -> Result<Seq<u8>, Error> {
        spec_dump_mpint(v)
    }

    fn parse(bytes: &[u8]) -> (r: Result<(UnsignedMpInt, usize), Error>) {
        proof {
            reveal(spec_parse_mpint);
        }
        match parse_bytes(bytes) {
            Ok((content, n)) => Ok((UnsignedMpInt(slice_to_vec(content)), n)),
            Err(e) => Err(e),
        }
    }

    fn dump(&self, sink: &mut Vec<u8>) -> (r: Result<(), Error>) {
        proof {
            reveal(spec_dump_bytes);
            reveal(spec_dump_mpint);
        }
        let bytes = self.0.as_slice();
        let mut k: usize = 0;
        while k < bytes.len() && bytes[k] == 0
            invariant
                k <= bytes.len(),
                forall|j: int| 0 <= j < k ==> bytes@[j] == 0,
            decreases bytes.len() - k,
        {
            k += 1;
        }
        let magnitude = slice_subrange(bytes, k, bytes.len());
        proof {
            lemma_strip_skip(bytes@, k as int);
            lemma_strip(bytes@);
            lemma_nat_be_of_be_nat(magnitude@);
        }
        let guard = magnitude.len() > 0 && magnitude[0] >= 0x80;
        if guard {
            if magnitude.len() >= 0xffff_ffff {
                return Err(Error::InvalidLength);
            }
            put_u32(sink, (magnitude.len() + 1) as u32);
            put_u8(sink, 0);
            put_slice(sink, magnitude);
            assert(sink@ =~= old(sink)@ + (spec_u32_be((magnitude@.len() + 1) as u32) + (seq![0u8]
                + magnitude@)));
            Ok(())
        } else {
            dump_bytes(magnitude, sink)
        }
    }

    proof fn lemma_parse_dump(v: nat, rest: Seq<u8>) {
        reveal(spec_parse_mpint);
        reveal(spec_dump_mpint);
        let content = spec_guard(spec_nat_be(v));
        lemma_parse_dump_bytes(content, rest);
        lemma_guard(spec_nat_be(v));
        lemma_be_nat_of_nat_be(v);
    }
}

/// Dumping what was parsed from the field of a number gives the same bytes.
pub proof fn lemma_dump_parse(bytes: Seq<u8>)
    requires
        bytes.len() >= 4,
        bytes.len() == 4 + spec_be_u32(bytes),
        is_canonical(bytes.skip(4)),
    ensures
        UnsignedMpInt::spec_parse(bytes) matches Ok((v, n)) && n == bytes.len() && UnsignedMpInt::spec_dump(v)
            == Ok::<Seq<u8>, Error>(bytes),
{
    reveal(spec_parse_mpint);
    reveal(spec_dump_mpint);
    reveal(spec_parse_bytes);
    reveal(spec_dump_bytes);
    let c = bytes.skip(4);
    assert(bytes.subrange(4, 4 + spec_be_u32(bytes) as int) =~= c);
    let v = spec_be_nat(c);
    let m = spec_strip(c);
    lemma_strip(c);
    lemma_nat_be_of_be_nat(m);
    assert(spec_nat_be(v) == m);
    if c.len() > 0 && c[0] == 0 {
        assert(c.skip(1)[0] == c[1]);
        assert(spec_strip(c.skip(1)) == c.skip(1));
        assert(seq![0u8] + c.skip(1) =~= c);
    }
    assert(spec_guard(m) == c);
    lemma_be_u32(bytes.take(4));
    assert(bytes.take(4).take(4) =~= bytes.take(4));
    lemma_be_u32_prefix(bytes.take(4), bytes);
    assert(spec_u32_be(c.len() as u32) + c =~= bytes);
}

/// A number whose magnitude begins with the high bit set is written with
/// exactly one zero byte before the magnitude.
pub proof fn lemma_dump_guarded(v: nat)
    requires
        v > 0,
        spec_nat_be(v)[0] >= 0x80,
        spec_nat_be(v).len() < u32::MAX,
    ensures
        UnsignedMpInt::spec_dump(v) == Ok::<Seq<u8>, Error>(
            spec_u32_be((spec_nat_be(v).len() + 1) as u32) + seq![0u8] + spec_nat_be(v),
        ),
        spec_nat_be(v)[0] != 0,
{
    reveal(spec_dump_mpint);
    reveal(spec_dump_bytes);
    lemma_be_nat_of_nat_be(v);
    let m = spec_nat_be(v);
    assert(spec_u32_be((m.len() + 1) as u32) + (seq![0u8] + m) =~= spec_u32_be((m.len() + 1) as u32)
        + seq![0u8] + m);
}

/// Zero is written as a length of zero and nothing else.
pub proof fn lemma_dump_zero()
    ensures
        UnsignedMpInt::spec_dump(0) == Ok::<Seq<u8>, Error>(seq![0u8, 0u8, 0u8, 0u8]),
{
    reveal(spec_u32_be);
    reveal(spec_dump_mpint);
    reveal(spec_dump_bytes);
    assert(spec_u32_be(0) + Seq::<u8>::empty() =~= seq![0u8, 0u8, 0u8, 0u8]);
}

} // verus!
