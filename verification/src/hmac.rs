//! HMAC with SHA-256.
//!
//! The key is brought to one block of 64 bytes: hashed first where it is
//! longer, then filled up with zero bytes.  The inner hash takes the block
//! combined with 0x36, then the message; the outer hash takes the block
//! combined with 0x5c, then the inner digest.

use crate::crypto::{sha256_digest, spec_sha256};
use crate::parsedump::put_slice;
use vstd::prelude::*;

verus! {

/// `block` filled up with zero bytes, or cut, to 64 bytes.
pub open spec fn spec_pad(block: Seq<u8>) -> Seq<u8> {
    Seq::new(
        64,
        |i: int|
            if i < block.len() {
                block[i]
            } else {
                0u8
            },
    )
}

/// Each of the 64 bytes of `block` combined with `byte` by exclusive or.
pub open spec fn spec_xor(block: Seq<u8>, byte: u8) -> Seq<u8> {
    Seq::new(64, |i: int| block[i] ^ byte)
}

/// The block of 64 bytes that stands for `key`.
pub open spec fn spec_key_block(key: Seq<u8>) -> Seq<u8> {
    if key.len() > 64 {
        spec_pad(spec_sha256(key))
    } else {
        spec_pad(key)
    }
}

/// What the inner hash begins with.
pub open spec fn spec_inner_pad(key: Seq<u8>) -> Seq<u8> {
    spec_xor(spec_key_block(key), 0x36)
}

/// What the outer hash begins with.
pub open spec fn spec_outer_pad(key: Seq<u8>) -> Seq<u8> {
    spec_xor(spec_key_block(key), 0x5c)
}

/// The HMAC-SHA256 of `message` under `key`.
pub open spec fn spec_hmac(key: Seq<u8>, message: Seq<u8>) -> Seq<u8> {
    spec_sha256(spec_outer_pad(key) + spec_sha256(spec_inner_pad(key) + message))
}

/// Combines each byte of `array` with `byte` by exclusive or.
pub fn xor(array: [u8; 64], byte: u8) -> (out: [u8; 64])
    ensures
        out@ == spec_xor(array@, byte),
{
    let mut out = array;
    let mut i: usize = 0;
    while i < 64
        invariant
            i <= 64,
            forall|j: int| 0 <= j < i ==> out@[j] == array@[j] ^ byte,
            forall|j: int| i <= j < 64 ==> out@[j] == array@[j],
        decreases 64 - i,
    {
        out[i] = out[i] ^ byte;
        i += 1;
    }
    assert(out@ =~= spec_xor(array@, byte));
    out
}

/// A keyed hash in progress: the key and the message fed so far.
pub struct Hmac {
    inner: Vec<u8>,
    outer: [u8; 64],
}

/// What an `Hmac` holds.
pub ghost struct HmacView {
    /// What the inner hash has been fed: the inner pad, then the message.
    pub inner: Seq<u8>,
    /// What the outer hash begins with.
    pub outer: Seq<u8>,
}

impl View for Hmac {
    type V = HmacView;

    closed spec fn view(&self) -> HmacView {
        HmacView { inner: self.inner@, outer: self.outer@ }
    }
}

impl HmacView {
    /// The state for `key` after `message` was fed.
    pub open spec fn keyed(key: Seq<u8>, message: Seq<u8>) -> HmacView {
        HmacView { inner: spec_inner_pad(key) + message, outer: spec_outer_pad(key) }
    }

    /// The digest that `finalize` gives in this state.
    pub open spec fn digest(self) -> Seq<u8> {
        spec_sha256(self.outer + spec_sha256(self.inner))
    }

    /// The digest of this state after `message` is fed as well.
    pub open spec fn mac(self, message: Seq<u8>) -> Seq<u8> {
        spec_sha256(self.outer + spec_sha256(self.inner + message))
    }
}

impl Hmac {
    /// Starts a keyed hash.
    pub fn new(key: &[u8]) -> (h: Hmac)
        ensures
            h@ == HmacView::keyed(key@, Seq::<u8>::empty()),
    {
        let mut block = [0u8; 64];
        if key.len() > 64 {
            let hashed = sha256_digest(key);
            let mut i: usize = 0;
            while i < 32
                invariant
                    i <= 32,
                    hashed@.len() == 32,
                    forall|j: int| 0 <= j < i ==> block@[j] == hashed@[j],
                    forall|j: int| i <= j < 64 ==> block@[j] == 0,
                decreases 32 - i,
            {
                block[i] = hashed[i];
                i += 1;
            }
            assert(block@ =~= spec_pad(hashed@));
        } else {
            let mut i: usize = 0;
            while i < key.len()
                invariant
                    i <= key.len() <= 64,
                    forall|j: int| 0 <= j < i ==> block@[j] == key@[j],
                    forall|j: int| i <= j < 64 ==> block@[j] == 0,
                decreases key.len() - i,
            {
                block[i] = key[i];
                i += 1;
            }
            assert(block@ =~= spec_pad(key@));
        }
        let inner_pad = xor(block, 0x36);
        let outer = xor(block, 0x5c);
        let mut inner = Vec::new();
        put_slice(&mut inner, inner_pad.as_slice());
        assert(inner@ =~= spec_inner_pad(key@) + Seq::<u8>::empty());
        Hmac { inner, outer }
    }

    /// Feeds `input` to the hash.
    pub fn update(&mut self, input: &[u8])
        ensures
            final(self)@.inner == old(self)@.inner + input@,
            final(self)@.outer == old(self)@.outer,
    {
        put_slice(&mut self.inner, input);
    }

    /// The digest of what was fed.
    pub fn finalize(self) -> (out: [u8; 32])
        ensures
            out@ == self@.digest(),
    {
        let inner_digest = sha256_digest(self.inner.as_slice());
        let mut outer = Vec::new();
        put_slice(&mut outer, self.outer.as_slice());
        put_slice(&mut outer, inner_digest.as_slice());
        assert(outer@ =~= self.outer@ + inner_digest@);
        sha256_digest(outer.as_slice())
    }

    /// The digest that results when `message` is fed as well.  The hash
    /// itself stays as it is.
    pub fn mac(&self, message: &[u8]) -> (out: [u8; 32])
        ensures
            out@ == self@.mac(message@),
    {
        let mut inner = Vec::new();
        put_slice(&mut inner, self.inner.as_slice());
        put_slice(&mut inner, message);
        assert(inner@ =~= self.inner@ + message@);
        let inner_digest = sha256_digest(inner.as_slice());
        let mut outer = Vec::new();
        put_slice(&mut outer, self.outer.as_slice());
        put_slice(&mut outer, inner_digest.as_slice());
        assert(outer@ =~= self.outer@ + inner_digest@);
        sha256_digest(outer.as_slice())
    }
}

/// A hash that was started with `key` and fed `message` gives the
/// HMAC-SHA256 of `message` under `key`.
pub proof fn lemma_hmac(key: Seq<u8>, message: Seq<u8>)
    ensures
        HmacView::keyed(key, message).digest() == spec_hmac(key, message),
        HmacView::keyed(key, Seq::<u8>::empty()).mac(message) == spec_hmac(key, message),
{
    assert(spec_inner_pad(key) + Seq::<u8>::empty() + message =~= spec_inner_pad(key) + message);
}

} // verus!
