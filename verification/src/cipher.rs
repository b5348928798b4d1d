//! AES-256 in counter mode, as a position in a keystream.
//!
//! The keystream is fixed by the key and the initial counter block.  The
//! cipher holds both and the number of keystream bytes already used.  To
//! encrypt or decrypt is to combine the data with the next bytes of the
//! keystream, byte by byte, by exclusive or.

use crate::crypto::{aes256_ctr_apply, spec_keystream};
use crate::error::Error;
use vstd::prelude::*;

verus! {

/// `data` combined with the keystream of `key` and `iv` from `pos` on.
pub open spec fn spec_xor_stream(key: Seq<u8>, iv: Seq<u8>, pos: nat, data: Seq<u8>) -> Seq<u8> {
    Seq::new(data.len(), |i: int| data[i] ^ spec_keystream(key, iv, (pos + i) as nat))
}

/// Combining twice with the same stretch of keystream gives the data back.
pub proof fn lemma_xor_stream_twice(key: Seq<u8>, iv: Seq<u8>, pos: nat, data: Seq<u8>)
    ensures
        spec_xor_stream(key, iv, pos, spec_xor_stream(key, iv, pos, data)) == data,
{
    let once = spec_xor_stream(key, iv, pos, data);
    let twice = spec_xor_stream(key, iv, pos, once);
    assert forall|i: int| 0 <= i < data.len() implies twice[i] == data[i] by {
        let d = data[i];
        let k = spec_keystream(key, iv, (pos + i) as nat);
        assert((d ^ k) ^ k == d) by (bit_vector);
    }
    assert(twice =~= data);
}

/// A stream cipher: a key, an initial counter block and a position.
pub struct Cipher {
    key: [u8; 32],
    iv: [u8; 16],
    pos: u64,
}

/// What a `Cipher` holds.
pub ghost struct CipherView {
    pub key: Seq<u8>,
    pub iv: Seq<u8>,
    /// The number of keystream bytes already used.
    pub pos: nat,
}

impl View for Cipher {
    type V = CipherView;

    closed spec fn view(&self) -> CipherView {
        CipherView { key: self.key@, iv: self.iv@, pos: self.pos as nat }
    }
}

impl CipherView {
    /// `data` combined with the next bytes of the keystream.
    pub open spec fn apply(self, data: Seq<u8>) -> Seq<u8> {
        spec_xor_stream(self.key, self.iv, self.pos, data)
    }

    /// The cipher after `n` more bytes of keystream were used.
    pub open spec fn advance(self, n: nat) -> CipherView {
        CipherView { key: self.key, iv: self.iv, pos: self.pos + n }
    }

    /// Whether `n` more bytes of keystream can be used: the position is
    /// counted in 64 bits.
    pub open spec fn has_room(self, n: nat) -> bool {
        self.pos + n <= u64::MAX
    }
}

impl Cipher {
    /// A cipher at the start of the keystream of `key` and `iv`.
    pub fn new(key: [u8; 32], iv: [u8; 16]) -> (c: Cipher)
        ensures
            c@ == (CipherView { key: key@, iv: iv@, pos: 0 }),
    {
        Cipher { key, iv, pos: 0 }
    }

    /// Whether `n` more bytes of keystream can be used.
    pub fn has_room(&self, n: usize) -> (b: bool)
        ensures
            b == self@.has_room(n as nat),
    {
        n as u64 <= u64::MAX - self.pos
    }

    /// Combines `data` with the next bytes of the keystream and leaves the
    /// position where it is.
    pub fn peek(&self, data: &mut Vec<u8>)
        requires
            self@.has_room(old(data)@.len()),
        ensures
            final(data)@ == self@.apply(old(data)@),
    {
        aes256_ctr_apply(&self.key, &self.iv, self.pos, data);
        assert(data@ =~= self@.apply(old(data)@));
    }

    /// Moves the position `n` bytes on.
    pub fn skip(&mut self, n: usize)
        requires
            old(self)@.has_room(n as nat),
        ensures
            final(self)@ == old(self)@.advance(n as nat),
    {
        self.pos = self.pos + n as u64;
    }

    /// Combines `data` with the next bytes of the keystream and moves the
    /// position behind them.  Fails with `Unimplemented`, and changes
    /// nothing, where the keystream has no room for `data`: the connection
    /// would have to exchange new keys.
    pub fn apply_keystream(&mut self, data: &mut Vec<u8>) -> (r: Result<(), Error>)
        ensures
            old(self)@.has_room(old(data)@.len()) ==> r is Ok && final(data)@ == old(self)@.apply(old(data)@)
                && final(self)@ == old(self)@.advance(old(data)@.len()),
            !old(self)@.has_room(old(data)@.len()) ==> r == Err::<(), Error>(Error::Unimplemented)
                && final(data)@ == old(data)@ && final(self)@ == old(self)@,
    {
        if !self.has_room(data.len()) {
            return Err(Error::Unimplemented);
        }
        self.peek(data);
        self.skip(data.len());
        Ok(())
    }
}

} // verus!
