//! The wire codec: how the primitive fields are laid out in bytes, and the
//! trait that every record implements.
//!
//! Each type comes with two specification functions.  `spec_dump` gives the
//! bytes that stand for a value, `spec_parse` gives the value that a byte
//! sequence begins with and how many bytes it takes.  The executable `parse`
//! and `dump` compute exactly these, and `lemma_parse_dump` shows that parsing
//! undoes dumping.

use crate::error::Error;
use vstd::prelude::*;
use vstd::slice::{slice_subrange, slice_to_vec};
use vstd::string::StringSliceAdditionalSpecFns;
use vstd::utf8::{
    decode_utf8, encode_utf8, encode_utf8_decode_utf8, encode_utf8_valid_utf8, is_ascii_chars,
    is_ascii_chars_encode_utf8, valid_utf8,
};

verus! {

/// The four bytes of a `uint32`, most significant first.
#[verifier::opaque]
pub open spec fn spec_u32_be(v: u32) -> Seq<u8> {
    seq![
        (v / 0x100_0000) as u8,
        (v / 0x1_0000 % 0x100) as u8,
        (v / 0x100 % 0x100) as u8,
        (v % 0x100) as u8,
    ]
}

/// The `uint32` that the first four bytes of `b` stand for.
#[verifier::opaque]
pub open spec fn spec_be_u32(b: Seq<u8>) -> u32
    recommends
        b.len() >= 4,
{
    (b[0] as int * 0x100_0000 + b[1] as int * 0x1_0000 + b[2] as int * 0x100 + b[3] as int) as u32
}

/// Reading the four bytes of a `uint32` gives the number back.
pub proof fn lemma_u32_be(v: u32)
    ensures
        spec_u32_be(v).len() == 4,
        spec_be_u32(spec_u32_be(v)) == v,
{
    reveal(spec_u32_be);
    reveal(spec_be_u32);
}

/// The number is read from the first four bytes alone.
pub proof fn lemma_be_u32_prefix(a: Seq<u8>, b: Seq<u8>)
    requires
        a.len() >= 4,
        b.len() >= 4,
        a.take(4) == b.take(4),
    ensures
        spec_be_u32(a) == spec_be_u32(b),
{
    reveal(spec_be_u32);
    assert(a[0] == a.take(4)[0] && a[1] == a.take(4)[1] && a[2] == a.take(4)[2] && a[3] == a.take(4)[3]);
    assert(b[0] == b.take(4)[0] && b[1] == b.take(4)[1] && b[2] == b.take(4)[2] && b[3] == b.take(4)[3]);
}

/// Writing the number that four bytes stand for gives the bytes back.
pub proof fn lemma_be_u32(b: Seq<u8>)
    requires
        b.len() == 4,
    ensures
        spec_u32_be(spec_be_u32(b)) == b,
{
    reveal(spec_u32_be);
    reveal(spec_be_u32);
    let b0 = b[0];
    let b1 = b[1];
    let b2 = b[2];
    let b3 = b[3];
    let n: u32 = (b0 as u32 * 0x100_0000 + b1 as u32 * 0x1_0000 + b2 as u32 * 0x100 + b3 as u32) as u32;
    assert(n == spec_be_u32(b));
    assert((n / 0x100_0000) as u8 == b0 && (n / 0x1_0000 % 0x100) as u8 == b1 && (n / 0x100 % 0x100) as u8
        == b2 && (n % 0x100) as u8 == b3) by (bit_vector)
        requires
            n == (b0 as u32 * 0x100_0000 + b1 as u32 * 0x1_0000 + b2 as u32 * 0x100 + b3 as u32) as u32,
    ;
    assert(spec_u32_be(n) =~= b);
}

/// A result of `parse` agrees with a result of `spec_parse`: both fail with
/// the same error, or both give the same value and the same count.
pub open spec fn parsed<T: View>(r: Result<(T, usize), Error>, s: Result<(T::V, nat), Error>) -> bool {
    match (r, s) {
        (Ok((v, n)), Ok((sv, sn))) => v@ == sv && n == sn,
        (Err(e), Err(se)) => e == se,
        _ => false,
    }
}

/// Whether `after` begins with the bytes of `before`.
pub open spec fn begins_with(after: Seq<u8>, before: Seq<u8>) -> bool {
    &&& before.len() <= after.len()
    &&& forall|i: int| 0 <= i < before.len() ==> after[i] == before[i]
}

/// A result of `dump` agrees with a result of `spec_dump`: on success the
/// bytes were appended to the sink, on failure the error is the same and the
/// sink still begins with what it held.
pub open spec fn dumped(r: Result<(), Error>, s: Result<Seq<u8>, Error>, before: Seq<u8>, after: Seq<u8>) -> bool {
    match s {
        Ok(w) => r is Ok && after =~= before + w,
        Err(e) => r == Err::<(), Error>(e) && begins_with(after, before),
    }
}

/// The bytes of `a` followed by those of `b`, unless one of them failed.
pub open spec fn chain(a: Result<Seq<u8>, Error>, b: Result<Seq<u8>, Error>) -> Result<Seq<u8>, Error> {
    match a {
        Err(e) => Err(e),
        Ok(x) => match b {
            Err(e) => Err(e),
            Ok(y) => Ok(x + y),
        },
    }
}

/// Bytes that are split after `a` and `b` can as well be split after `a`
/// alone.
pub proof fn lemma_regroup(a: Seq<u8>, b: Seq<u8>, c: Seq<u8>)
    ensures
        (a + b) + c == a + (b + c),
{
    assert((a + b) + c =~= a + (b + c));
}

/// What follows `a` in `a + b` is `b`.
pub proof fn lemma_skip_front(a: Seq<u8>, b: Seq<u8>)
    ensures
        (a + b).skip(a.len() as int) == b,
{
    assert((a + b).skip(a.len() as int) =~= b);
}

/// A type with a wire form.
pub trait ParseDump: Sized + View {
    /// The value that `bytes` begins with and the number of bytes it takes.
    spec fn spec_parse(bytes: Seq<u8>) -> Result<(Self::V, nat), Error>;

    /// The bytes that stand for `v`.
    spec fn spec_dump(v: Self::V) -> Result<Seq<u8>, Error>;

    /// Reads a value from the start of `bytes`.
    fn parse(bytes: &[u8]) -> (r: Result<(Self, usize), Error>)
        ensures
            parsed(r, Self::spec_parse(bytes@)),
            r matches Ok((_, n)) ==> n <= bytes.len(),
    ;

    /// Appends the bytes of `self` to `sink`.
    fn dump(&self, sink: &mut Vec<u8>) -> (r: Result<(), Error>)
        ensures
            dumped(r, Self::spec_dump(self@), old(sink)@, final(sink)@),
    ;

    /// Parsing the bytes of a value, whatever follows them, gives the value
    /// back and takes exactly those bytes.
    proof fn lemma_parse_dump(v: Self::V, rest: Seq<u8>)
        ensures
            Self::spec_dump(v) matches Ok(w) ==> Self::spec_parse(w + rest) == Ok::<(Self::V, nat), Error>(
                (v, w.len()),
            ),
    ;
}

/// The bytes of `src` from `from` on.
pub fn tail(src: &[u8], from: usize) -> (out: &[u8])
    requires
        from <= src.len(),
    ensures
        out@ == src@.skip(from as int),
{
    slice_subrange(src, from, src.len())
}

/// The first `N` bytes of `src`.  Fails with `TruncatedInput` when `src` is
/// shorter.
pub fn try_get<const N: usize>(src: &[u8]) -> (r: Result<[u8; N], Error>)
    ensures
        src.len() < N ==> r == Err::<[u8; N], Error>(Error::TruncatedInput),
        src.len() >= N ==> r is Ok && r.unwrap()@ == src@.take(N as int),
{
    if src.len() < N {
        return Err(Error::TruncatedInput);
    }
    let mut dst = [0u8; N];
    let mut i: usize = 0;
    while i < N
        invariant
            N <= src.len(),
            i <= N,
            forall|j: int| 0 <= j < i ==> dst@[j] == src@[j],
        decreases N - i,
    {
        dst[i] = src[i];
        i += 1;
    }
    assert(dst@ =~= src@.take(N as int));
    Ok(dst)
}

/// The `uint32` at the start of `src`.  Fails with `TruncatedInput` when
/// `src` has fewer than four bytes.
pub fn try_u32(src: &[u8]) -> (r: Result<u32, Error>)
    ensures
        src.len() < 4 ==> r == Err::<u32, Error>(Error::TruncatedInput),
        src.len() >= 4 ==> r == Ok::<u32, Error>(spec_be_u32(src@)),
{
    if src.len() < 4 {
        return Err(Error::TruncatedInput);
    }
    proof {
        reveal(spec_be_u32);
    }
    let b0: u32 = src[0] as u32;
    let b1: u32 = src[1] as u32;
    let b2: u32 = src[2] as u32;
    let b3: u32 = src[3] as u32;
    Ok(b0 * 0x100_0000 + b1 * 0x1_0000 + b2 * 0x100 + b3)
}

/// Appends the four bytes of `v`, most significant first.
pub fn put_u32(sink: &mut Vec<u8>, v: u32)
    ensures
        final(sink)@ == old(sink)@ + spec_u32_be(v),
{
    proof {
        reveal(spec_u32_be);
    }
    sink.push((v / 0x100_0000) as u8);
    sink.push((v / 0x1_0000 % 0x100) as u8);
    sink.push((v / 0x100 % 0x100) as u8);
    sink.push((v % 0x100) as u8);
    assert(sink@ =~= old(sink)@ + spec_u32_be(v));
}

/// Appends one byte.
pub fn put_u8(sink: &mut Vec<u8>, v: u8)
    ensures
        final(sink)@ == old(sink)@ + seq![v],
{
    sink.push(v);
    assert(sink@ =~= old(sink)@ + seq![v]);
}

/// Appends `bytes` as they are.
pub fn put_slice(sink: &mut Vec<u8>, bytes: &[u8])
    ensures
        final(sink)@ == old(sink)@ + bytes@,
{
    sink.extend_from_slice(bytes);
    assert(sink@ =~= old(sink)@ + bytes@);
}

/// The flag at the start of `bytes`: false for a zero byte, true for any
/// other.
#[verifier::opaque]
pub open spec fn spec_parse_bool(bytes: Seq<u8>) -> Result<(bool, nat), Error> {
    if bytes.len() < 1 {
        Err(Error::TruncatedInput)
    } else {
        Ok((bytes[0] != 0, 1))
    }
}

/// The byte of a flag: 1 for true, 0 for false.
#[verifier::opaque]
pub open spec fn spec_dump_bool(v: bool) -> Result<Seq<u8>, Error> {
    Ok(seq![if v { 1u8 } else { 0u8 }])
}

impl ParseDump for bool {
    open spec fn spec_parse(bytes: Seq<u8>) -> Result<(bool, nat), Error> {
        spec_parse_bool(bytes)
    }

    open spec fn spec_dump(v: bool) -> Result<Seq<u8>, Error> {
        spec_dump_bool(v)
    }

    fn parse(bytes: &[u8]) -> (r: Result<(bool, usize), Error>) {
        proof {
            reveal(spec_parse_bool);
        }
        if bytes.len() < 1 {
            Err(Error::TruncatedInput)
        } else {
            Ok((bytes[0] != 0, 1))
        }
    }

    fn dump(&self, sink: &mut Vec<u8>) -> (r: Result<(), Error>) {
        proof {
            reveal(spec_dump_bool);
        }
        put_u8(sink, if *self { 1 } else { 0 });
        Ok(())
    }

    proof fn lemma_parse_dump(v: bool, rest: Seq<u8>) {
        reveal(spec_parse_bool);
        reveal(spec_dump_bool);
    }
}

/// The byte at the start of `bytes`.
#[verifier::opaque]
pub open spec fn spec_parse_u8(bytes: Seq<u8>) -> Result<(u8, nat), Error> {
    if bytes.len() < 1 {
        Err(Error::TruncatedInput)
    } else {
        Ok((bytes[0], 1))
    }
}

/// A byte stands for itself.
#[verifier::opaque]
pub open spec fn spec_dump_u8(v: u8) -> Result<Seq<u8>, Error> {
    Ok(seq![v])
}

impl ParseDump for u8 {
    open spec fn spec_parse(bytes: Seq<u8>) -> Result<(u8, nat), Error> {
        spec_parse_u8(bytes)
    }

    open spec fn spec_dump(v: u8) -> Result<Seq<u8>, Error> {
        spec_dump_u8(v)
    }

    fn parse(bytes: &[u8]) -> (r: Result<(u8, usize), Error>) {
        proof {
            reveal(spec_parse_u8);
        }
        if bytes.len() < 1 {
            Err(Error::TruncatedInput)
        } else {
            Ok((bytes[0], 1))
        }
    }

    fn dump(&self, sink: &mut Vec<u8>) -> (r: Result<(), Error>) {
        proof {
            reveal(spec_dump_u8);
        }
        put_u8(sink, *self);
        Ok(())
    }

    proof fn lemma_parse_dump(v: u8, rest: Seq<u8>) {
        reveal(spec_parse_u8);
        reveal(spec_dump_u8);
    }
}

/// The `uint32` at the start of `bytes`.
#[verifier::opaque]
pub open spec fn spec_parse_u32(bytes: Seq<u8>) -> Result<(u32, nat), Error> {
    if bytes.len() < 4 {
        Err(Error::TruncatedInput)
    } else {
        Ok((spec_be_u32(bytes), 4))
    }
}

/// The four bytes of a `uint32`.
#[verifier::opaque]
pub open spec fn spec_dump_u32(v: u32) -> Result<Seq<u8>, Error> {
    Ok(spec_u32_be(v))
}

impl ParseDump for u32 {
    open spec fn spec_parse(bytes: Seq<u8>) -> Result<(u32, nat), Error> {
        spec_parse_u32(bytes)
    }

    open spec fn spec_dump(v: u32) -> Result<Seq<u8>, Error> {
        spec_dump_u32(v)
    }

    fn parse(bytes: &[u8]) -> (r: Result<(u32, usize), Error>) {
        proof {
            reveal(spec_parse_u32);
        }
        match try_u32(bytes) {
            Ok(v) => Ok((v, 4)),
            Err(e) => Err(e),
        }
    }

    fn dump(&self, sink: &mut Vec<u8>) -> (r: Result<(), Error>) {
        proof {
            reveal(spec_dump_u32);
        }
        put_u32(sink, *self);
        Ok(())
    }

    proof fn lemma_parse_dump(v: u32, rest: Seq<u8>) {
        reveal(spec_parse_u32);
        reveal(spec_dump_u32);
        lemma_u32_be(v);
        assert((spec_u32_be(v) + rest).take(4) =~= spec_u32_be(v).take(4));
        lemma_be_u32_prefix(spec_u32_be(v) + rest, spec_u32_be(v));
    }
}

/// The sixteen bytes at the start of `bytes`.
#[verifier::opaque]
pub open spec fn spec_parse_array16(bytes: Seq<u8>) -> Result<(Seq<u8>, nat), Error> {
    if bytes.len() < 16 {
        Err(Error::TruncatedInput)
    } else {
        Ok((bytes.take(16), 16))
    }
}

/// Sixteen bytes stand for themselves.
#[verifier::opaque]
pub open spec fn spec_dump_array16(v: Seq<u8>) -> Result<Seq<u8>, Error> {
    if v.len() == 16 {
        Ok(v)
    } else {
        Err(Error::InvalidLength)
    }
}

impl ParseDump for [u8; 16] {
    open spec fn spec_parse(bytes: Seq<u8>) -> Result<(Seq<u8>, nat), Error> {
        spec_parse_array16(bytes)
    }

    open spec fn spec_dump(v: Seq<u8>) -> Result<Seq<u8>, Error> {
        spec_dump_array16(v)
    }

    fn parse(bytes: &[u8]) -> (r: Result<([u8; 16], usize), Error>) {
        proof {
            reveal(spec_parse_array16);
        }
        match try_get::<16>(bytes) {
            Ok(v) => Ok((v, 16)),
            Err(e) => Err(e),
        }
    }

    fn dump(&self, sink: &mut Vec<u8>) -> (r: Result<(), Error>) {
        proof {
            reveal(spec_dump_array16);
        }
        let bytes = self.as_slice();
        assert(bytes@ == self@);
        assert(self@.len() == 16);
        put_slice(sink, bytes);
        Ok(())
    }

    proof fn lemma_parse_dump(v: Seq<u8>, rest: Seq<u8>) {
        reveal(spec_parse_array16);
        reveal(spec_dump_array16);
        if v.len() == 16 {
            assert((v + rest).take(16) =~= v);
        }
    }
}

/// The content of a length-prefixed field at the start of `bytes` and the
/// number of bytes that the field takes.
#[verifier::opaque]
pub open spec fn spec_parse_bytes(bytes: Seq<u8>) -> Result<(Seq<u8>, nat), Error> {
    if bytes.len() < 4 {
        Err(Error::TruncatedInput)
    } else if bytes.len() < 4 + spec_be_u32(bytes) {
        Err(Error::TruncatedInput)
    } else {
        Ok((bytes.subrange(4, 4 + spec_be_u32(bytes)), (4 + spec_be_u32(bytes)) as nat))
    }
}

/// The length-prefixed field that holds `v`.  There is none when the length
/// does not fit in a `uint32`.
#[verifier::opaque]
pub open spec fn spec_dump_bytes(v: Seq<u8>) -> Result<Seq<u8>, Error> {
    if v.len() > u32::MAX {
        Err(Error::InvalidLength)
    } else {
        Ok(spec_u32_be(v.len() as u32) + v)
    }
}

/// Parsing a length-prefixed field gives its content back.
pub proof fn lemma_parse_dump_bytes(v: Seq<u8>, rest: Seq<u8>)
    ensures
        spec_dump_bytes(v) matches Ok(w) ==> spec_parse_bytes(w + rest) == Ok::<(Seq<u8>, nat), Error>(
            (v, w.len()),
        ),
{
    reveal(spec_parse_bytes);
    reveal(spec_dump_bytes);
    if v.len() <= u32::MAX {
        let w = spec_u32_be(v.len() as u32) + v;
        lemma_u32_be(v.len() as u32);
        assert((w + rest).take(4) =~= spec_u32_be(v.len() as u32).take(4));
        lemma_be_u32_prefix(w + rest, spec_u32_be(v.len() as u32));
        assert((w + rest).subrange(4, 4 + v.len() as int) =~= v);
    }
}

/// The content of the length-prefixed field at the start of `bytes`, as a
/// slice of it, and the number of bytes that the field takes.
pub fn parse_bytes(bytes: &[u8]) -> (r: Result<(&[u8], usize), Error>)
    ensures
        match (r, spec_parse_bytes(bytes@)) {
            (Ok((v, n)), Ok((sv, sn))) => v@ == sv && n == sn && n <= bytes.len(),
            (Err(e), Err(se)) => e == se,
            _ => false,
        },
{
    proof {
        reveal(spec_parse_bytes);
    }
    let len = match try_u32(bytes) {
        Ok(v) => v as usize,
        Err(e) => return Err(e),
    };
    if bytes.len() - 4 < len {
        return Err(Error::TruncatedInput);
    }
    Ok((slice_subrange(bytes, 4, 4 + len), 4 + len))
}

/// Appends `v` as a length-prefixed field.  Fails with `InvalidLength`, and
/// appends nothing, when the length does not fit in a `uint32`.
pub fn dump_bytes(v: &[u8], sink: &mut Vec<u8>) -> (r: Result<(), Error>)
    ensures
        dumped(r, spec_dump_bytes(v@), old(sink)@, final(sink)@),
        r is Err ==> final(sink)@ == old(sink)@,
{
    proof {
        reveal(spec_dump_bytes);
    }
    if v.len() > 0xffff_ffff {
        return Err(Error::InvalidLength);
    }
    put_u32(sink, v.len() as u32);
    put_slice(sink, v);
    assert(sink@ =~= old(sink)@ + (spec_u32_be(v.len() as u32) + v@));
    Ok(())
}

impl ParseDump for Vec<u8> {
    open spec fn spec_parse(bytes: Seq<u8>) -> Result<(Seq<u8>, nat), Error> {
        spec_parse_bytes(bytes)
    }

    open spec fn spec_dump(v: Seq<u8>) -> Result<Seq<u8>, Error> {
        spec_dump_bytes(v)
    }

    fn parse(bytes: &[u8]) -> (r: Result<(Vec<u8>, usize), Error>) {
        match parse_bytes(bytes) {
            Ok((v, n)) => Ok((slice_to_vec(v), n)),
            Err(e) => Err(e),
        }
    }

    fn dump(&self, sink: &mut Vec<u8>) -> (r: Result<(), Error>) {
        dump_bytes(self.as_slice(), sink)
    }

    proof fn lemma_parse_dump(v: Seq<u8>, rest: Seq<u8>) {
        lemma_parse_dump_bytes(v, rest);
    }
}

/// Reads `bytes` as UTF-8 text.
///
/// Trusted: `core::str::from_utf8` succeeds exactly on valid UTF-8, and the
/// text it returns is made of the bytes it was given.
#[verifier::external_body]
fn str_from_utf8(bytes: &[u8]) -> (r: Option<&str>)
    ensures
        r is Some <==> valid_utf8(bytes@),
        r matches Some(s) ==> s.spec_bytes() == bytes@,
{
    core::str::from_utf8(bytes).ok()
}

/// Bytes below 128 are UTF-8: each is the character of its number.
pub proof fn lemma_ascii_is_utf8(bytes: Seq<u8>)
    requires
        forall|i: int| 0 <= i < bytes.len() ==> bytes[i] < 128,
    ensures
        valid_utf8(bytes),
        encode_utf8(Seq::new(bytes.len(), |i: int| bytes[i] as char)) == bytes,
{
    let chars = Seq::new(bytes.len(), |i: int| bytes[i] as char);
    assert(is_ascii_chars(chars));
    is_ascii_chars_encode_utf8(chars);
    assert forall|i: int| 0 <= i < bytes.len() implies encode_utf8(chars)[i] == bytes[i] by {
        assert(chars[i] as u8 == encode_utf8(chars)[i]);
        assert(chars[i] == bytes[i] as char);
    }
    assert(encode_utf8(chars) =~= bytes);
    encode_utf8_valid_utf8(chars);
}

/// The text whose UTF-8 bytes are `bytes`, all of them below 128.
pub fn text_of_ascii(bytes: &[u8]) -> (s: String)
    requires
        forall|i: int| 0 <= i < bytes@.len() ==> bytes@[i] < 128,
    ensures
        encode_utf8(s@) == bytes@,
{
    proof {
        lemma_ascii_is_utf8(bytes@);
    }
    match str_from_utf8(bytes) {
        Some(text) => text.to_owned(),
        None => String::new(),
    }
}

/// The text of a `string` field at the start of `bytes` and the number of
/// bytes that the field takes.
#[verifier::opaque]
pub open spec fn spec_parse_str(bytes: Seq<u8>) -> Result<(Seq<char>, nat), Error> {
    match spec_parse_bytes(bytes) {
        Err(e) => Err(e),
        Ok((content, n)) => if valid_utf8(content) {
            Ok((decode_utf8(content), n))
        } else {
            Err(Error::InvalidUtf8)
        },
    }
}

/// The `string` field that holds `v`: its UTF-8 bytes behind their length.
#[verifier::opaque]
pub open spec fn spec_dump_str(v: Seq<char>) -> Result<Seq<u8>, Error> {
    spec_dump_bytes(encode_utf8(v))
}

/// Parsing a `string` field gives its text back.
pub proof fn lemma_parse_dump_str(v: Seq<char>, rest: Seq<u8>)
    ensures
        spec_dump_str(v) matches Ok(w) ==> spec_parse_str(w + rest) == Ok::<(Seq<char>, nat), Error>(
            (v, w.len()),
        ),
{
    reveal(spec_parse_str);
    reveal(spec_dump_str);
    lemma_parse_dump_bytes(encode_utf8(v), rest);
    encode_utf8_valid_utf8(v);
    encode_utf8_decode_utf8(v);
}

/// Reads a `string` field.  Fails with `InvalidUtf8` when its content is not
/// UTF-8.
pub fn parse_str(bytes: &[u8]) -> (r: Result<(String, usize), Error>)
    ensures
        parsed(r, spec_parse_str(bytes@)),
        r matches Ok((_, n)) ==> n <= bytes.len(),
{
    proof {
        reveal(spec_parse_str);
    }
    let (content, n) = match parse_bytes(bytes) {
        Ok(p) => p,
        Err(e) => return Err(e),
    };
    match str_from_utf8(content) {
        Some(s) => {
            proof {
                encode_utf8_decode_utf8(s@);
            }
            Ok((s.to_owned(), n))
        },
        None => Err(Error::InvalidUtf8),
    }
}

/// Appends `v` as a `string` field.  Fails with `InvalidLength`, and appends
/// nothing, when its UTF-8 form is too long for a `uint32`.
pub fn dump_str(v: &str, sink: &mut Vec<u8>) -> (r: Result<(), Error>)
    ensures
        dumped(r, spec_dump_str(v@), old(sink)@, final(sink)@),
        r is Err ==> final(sink)@ == old(sink)@,
{
    proof {
        reveal(spec_dump_str);
    }
    dump_bytes(v.as_bytes(), sink)
}

/// Whether two byte strings are the same.
pub fn bytes_eq(a: &[u8], b: &[u8]) -> (same: bool)
    ensures
        same == (a@ == b@),
{
    if a.len() != b.len() {
        return false;
    }
    let mut i: usize = 0;
    while i < a.len()
        invariant
            a.len() == b.len(),
            i <= a.len(),
            forall|j: int| 0 <= j < i ==> a@[j] == b@[j],
        decreases a.len() - i,
    {
        if a[i] != b[i] {
            return false;
        }
        i += 1;
    }
    assert(a@ =~= b@);
    true
}

/// Whether two texts are the same.
pub fn text_eq(a: &str, b: &str) -> (same: bool)
    ensures
        same == (a@ == b@),
{
    proof {
        encode_utf8_decode_utf8(a@);
        encode_utf8_decode_utf8(b@);
    }
    bytes_eq(a.as_bytes(), b.as_bytes())
}

/// Whether `s` holds the text `text`.
pub fn text_is(s: &String, text: &str) -> (b: bool)
    ensures
        b == (s@ == text@),
{
    text_eq(s.as_str(), text)
}

impl ParseDump for String {
    open spec fn spec_parse(bytes: Seq<u8>) -> Result<(Seq<char>, nat), Error> {
        spec_parse_str(bytes)
    }

    open spec fn spec_dump(v: Seq<char>) -> Result<Seq<u8>, Error> {
        spec_dump_str(v)
    }

    fn parse(bytes: &[u8]) -> (r: Result<(String, usize), Error>) {
        parse_str(bytes)
    }

    fn dump(&self, sink: &mut Vec<u8>) -> (r: Result<(), Error>) {
        dump_str(self.as_str(), sink)
    }

    proof fn lemma_parse_dump(v: Seq<char>, rest: Seq<u8>) {
        lemma_parse_dump_str(v, rest);
    }
}

} // verus!
