//! The binary packet protocol: framing, padding, encryption, MAC and
//! sequence numbers.
//!
//! A packet on the wire is a `uint32` length, one byte that counts the
//! padding, the payload and the padding.  The length counts everything behind
//! itself.  Once keys are in use, these bytes are encrypted and a MAC over
//! the sequence number and the clear bytes follows them.
//!
//! Neither half touches a socket.  The writer turns a payload into the bytes
//! to send.  The reader is given the bytes that have arrived and says how
//! many of them made up a packet.

use crate::cipher::{lemma_xor_stream_twice, Cipher, CipherView};
use crate::error::Error;
use crate::hmac::{Hmac, HmacView};
use crate::messages::GlobalRequest;
use crate::parsedump::{
    lemma_be_u32_prefix, lemma_u32_be, put_slice, put_u32, put_u8, spec_be_u32, spec_u32_be, try_u32, ParseDump,
};
use vstd::arithmetic::div_mod::{
    lemma_fundamental_div_mod, lemma_mod_multiples_basic, lemma_mod_self_0, lemma_small_mod,
};
use vstd::prelude::*;
use vstd::slice::{slice_subrange, slice_to_vec};

verus! {

/// Whether `b` can be the block size of a packet stream: at least 8 bytes,
/// and small enough for the padding to be counted in one byte.
pub open spec fn valid_block_size(b: nat) -> bool {
    8 <= b <= 128
}

/// The number of padding bytes behind a payload of `payload_len` bytes: as
/// many as bring the packet to a multiple of the block size, and one block
/// more where a MAC is in use and these would be fewer than four.
pub open spec fn spec_padding(payload_len: nat, block_size: nat, mac_active: bool) -> nat {
    let pad = ((block_size - (5 + payload_len) % block_size) % (block_size as int)) as nat;
    if mac_active && pad < 4 {
        pad + block_size
    } else {
        pad
    }
}

/// The clear bytes of the packet that carries `payload` with `pad` bytes of
/// padding.  The padding is zero.
pub open spec fn spec_frame(payload: Seq<u8>, pad: nat) -> Seq<u8> {
    spec_u32_be((1 + payload.len() + pad) as u32) + seq![pad as u8] + payload + Seq::new(pad, |i: int| 0u8)
}

/// The padding brings the packet to a multiple of the block size, is at
/// least four bytes where a MAC is in use, and fits in its byte.
pub proof fn lemma_padding(payload_len: nat, block_size: nat, mac_active: bool)
    requires
        valid_block_size(block_size),
    ensures
        (5 + payload_len + spec_padding(payload_len, block_size, mac_active)) % block_size == 0,
        mac_active ==> spec_padding(payload_len, block_size, mac_active) >= 4,
        spec_padding(payload_len, block_size, mac_active) < 2 * block_size,
        spec_padding(payload_len, block_size, mac_active) <= 255,
{
    let b = block_size as int;
    let x = (5 + payload_len) as int;
    let r = x % b;
    lemma_fundamental_div_mod(x, b);
    let base = ((b - r) % b) as int;
    if r == 0 {
        lemma_mod_self_0(b);
        assert(base == 0);
    } else {
        lemma_small_mod((b - r) as nat, b as nat);
        assert(base == b - r);
        assert(x + base == b * (x / b + 1)) by (nonlinear_arith)
            requires
                x == b * (x / b) + r,
                base == b - r,
        ;
        lemma_mod_multiples_basic(x / b + 1, b);
        assert((x / b + 1) * b == b * (x / b + 1)) by (nonlinear_arith);
    }
    assert((x + base) % b == 0);
    if mac_active && base < 4 {
        lemma_fundamental_div_mod(x + base, b);
        assert(x + base + b == b * ((x + base) / b + 1)) by (nonlinear_arith)
            requires
                (x + base) % b == 0,
                x + base == b * ((x + base) / b) + (x + base) % b,
        ;
        lemma_mod_multiples_basic((x + base) / b + 1, b);
        assert(((x + base) / b + 1) * b == b * ((x + base) / b + 1)) by (nonlinear_arith);
    }
}

/// The shape of a packet: its length is a multiple of the block size, its
/// first four bytes count what follows them, and its fifth byte counts the
/// padding.
pub proof fn lemma_frame(payload: Seq<u8>, block_size: nat, mac_active: bool)
    requires
        valid_block_size(block_size),
        1 + payload.len() + spec_padding(payload.len(), block_size, mac_active) <= u32::MAX,
    ensures
        ({
            let pad = spec_padding(payload.len(), block_size, mac_active);
            let frame = spec_frame(payload, pad);
            &&& frame.len() == 5 + payload.len() + pad
            &&& frame.len() % block_size == 0
            &&& frame.len() >= block_size
            &&& spec_be_u32(frame) == frame.len() - 4
            &&& frame[4] == pad
            &&& mac_active ==> frame[4] >= 4
            &&& frame.subrange(5, 5 + payload.len() as int) == payload
        }),
{
    let pad = spec_padding(payload.len(), block_size, mac_active);
    let frame = spec_frame(payload, pad);
    lemma_padding(payload.len(), block_size, mac_active);
    let len = (1 + payload.len() + pad) as u32;
    lemma_u32_be(len);
    assert(frame.take(4) =~= spec_u32_be(len).take(4));
    lemma_be_u32_prefix(frame, spec_u32_be(len));
    assert(frame.subrange(5, 5 + payload.len() as int) =~= payload);
    assert(frame.len() > 0);
    if frame.len() < block_size {
        lemma_small_mod(frame.len(), block_size);
    }
}

/// The sequence number after `n`: one more, and zero after the largest.
pub open spec fn spec_next(n: u32) -> u32 {
    if n == u32::MAX {
        0
    } else {
        (n + 1) as u32
    }
}

/// The keys of one direction.
pub ghost struct Keys {
    pub cipher: CipherView,
    pub hmac: HmacView,
}

/// What a `PacketWriter` holds.
pub ghost struct WriterView {
    /// The sequence number of the next packet.
    pub packet_number: u32,
    /// The keys, once they are in use.
    pub keys: Option<Keys>,
    pub block_size: nat,
}

impl WriterView {
    /// The bytes on the wire for `payload` and the writer after them.  A
    /// payload too long for the length field is an invalid length; a packet
    /// for which the keystream has no room is not implemented.
    pub open spec fn send(self, payload: Seq<u8>) -> Result<(Seq<u8>, WriterView), Error> {
        let pad = spec_padding(payload.len(), self.block_size, self.keys is Some);
        if 1 + payload.len() + pad > u32::MAX {
            Err(Error::InvalidLength)
        } else {
            let clear = spec_frame(payload, pad);
            match self.keys {
                None => Ok(
                    (
                        clear,
                        WriterView {
                            packet_number: spec_next(self.packet_number),
                            keys: None,
                            block_size: self.block_size,
                        },
                    ),
                ),
                Some(keys) => if !keys.cipher.has_room(clear.len()) {
                    Err(Error::Unimplemented)
                } else {
                    Ok(
                        (
                            keys.cipher.apply(clear) + keys.hmac.mac(spec_u32_be(self.packet_number) + clear),
                            WriterView {
                                packet_number: spec_next(self.packet_number),
                                keys: Some(
                                    Keys { cipher: keys.cipher.advance(clear.len()), hmac: keys.hmac },
                                ),
                                block_size: self.block_size,
                            },
                        ),
                    )
                },
            }
        }
    }
}

impl WriterView {
    /// The bytes on the wire for a message and the writer after them.  Fails
    /// as the dump of the message fails, or as `send` fails.
    pub open spec fn send_message<M: ParseDump>(self, message: M::V) -> Result<(Seq<u8>, WriterView), Error> {
        match M::spec_dump(message) {
            Err(e) => Err(e),
            Ok(payload) => self.send(payload),
        }
    }
}

/// Builds the clear bytes of the packet for `payload`.  Fails with
/// `InvalidLength` where the length field cannot count the packet.
pub fn frame(payload: &[u8], block_size: usize, mac_active: bool) -> (r: Result<Vec<u8>, Error>)
    requires
        valid_block_size(block_size as nat),
    ensures
        ({
            let pad = spec_padding(payload@.len(), block_size as nat, mac_active);
            if 1 + payload@.len() + pad > u32::MAX {
                r == Err::<Vec<u8>, Error>(Error::InvalidLength)
            } else {
                r is Ok && r.unwrap()@ == spec_frame(payload@, pad)
            }
        }),
{
    proof {
        lemma_padding(payload@.len(), block_size as nat, mac_active);
    }
    if payload.len() > 0xffff_ffff {
        return Err(Error::InvalidLength);
    }
    let n: u64 = payload.len() as u64;
    let b: u64 = block_size as u64;
    let mut pad: u64 = (b - (5 + n) % b) % b;
    if mac_active && pad < 4 {
        pad = pad + b;
    }
    assert(pad == spec_padding(payload@.len(), block_size as nat, mac_active));
    if 1 + n + pad > 0xffff_ffff {
        return Err(Error::InvalidLength);
    }
    let mut out: Vec<u8> = Vec::new();
    put_u32(&mut out, (1 + n + pad) as u32);
    put_u8(&mut out, pad as u8);
    put_slice(&mut out, payload);
    let ghost head = out@;
    let mut i: u64 = 0;
    while i < pad
        invariant
            i <= pad,
            out@ == head + Seq::new(i as nat, |j: int| 0u8),
        decreases pad - i,
    {
        out.push(0);
        i += 1;
        assert(out@ =~= head + Seq::new(i as nat, |j: int| 0u8));
    }
    Ok(out)
}

/// The writing half of a packet stream.
pub struct PacketWriter {
    packet_number: u32,
    keyed: bool,
    cipher: Cipher,
    hmac: Hmac,
    block_size: usize,
}

impl View for PacketWriter {
    type V = WriterView;

    closed spec fn view(&self) -> WriterView {
        WriterView {
            packet_number: self.packet_number,
            keys: if self.keyed {
                Some(Keys { cipher: self.cipher@, hmac: self.hmac@ })
            } else {
                None
            },
            block_size: self.block_size as nat,
        }
    }
}

impl PacketWriter {
    /// A writer at the start of a connection: sequence number zero, no keys,
    /// blocks of eight bytes.
    pub fn new() -> (w: PacketWriter)
        ensures
            w@ == (WriterView { packet_number: 0, keys: None, block_size: 8 }),
    {
        PacketWriter {
            packet_number: 0,
            keyed: false,
            cipher: Cipher::new([0u8; 32], [0u8; 16]),
            hmac: Hmac::new(&[]),
            block_size: 8,
        }
    }

    /// Puts keys in use.  The sequence number goes on as it is.
    pub fn set_encryptor(&mut self, encryptor: Cipher, hmac: Hmac, block_size: usize)
        requires
            valid_block_size(block_size as nat),
        ensures
            final(self)@ == (WriterView {
                packet_number: old(self)@.packet_number,
                keys: Some(Keys { cipher: encryptor@, hmac: hmac@ }),
                block_size: block_size as nat,
            }),
    {
        self.keyed = true;
        self.cipher = encryptor;
        self.hmac = hmac;
        self.block_size = block_size;
    }

    /// Whether the block size is valid.  It always is for a writer made by
    /// `new` and changed by `set_encryptor`.
    pub open spec fn wf(&self) -> bool {
        valid_block_size(self@.block_size)
    }

    /// Frames `payload`, and encrypts and signs it where keys are in use.
    /// Returns the bytes to put on the wire.  On failure the writer is
    /// unchanged.
    pub fn send_raw(&mut self, payload: &[u8]) -> (r: Result<Vec<u8>, Error>)
        requires
            old(self).wf(),
        ensures
            final(self).wf(),
            match old(self)@.send(payload@) {
                Ok((wire, next)) => r is Ok && r.unwrap()@ == wire && final(self)@ == next,
                Err(e) => r == Err::<Vec<u8>, Error>(e) && final(self)@ == old(self)@,
            },
    {
        let mut packet = frame(payload, self.block_size, self.keyed)?;
        if self.keyed {
            if !self.cipher.has_room(packet.len()) {
                return Err(Error::Unimplemented);
            }
            let mut signed: Vec<u8> = Vec::new();
            put_u32(&mut signed, self.packet_number);
            put_slice(&mut signed, packet.as_slice());
            let mac = self.hmac.mac(signed.as_slice());
            let ghost clear = packet@;
            assert(signed@ =~= spec_u32_be(self.packet_number) + clear);
            self.cipher.apply_keystream(&mut packet)?;
            put_slice(&mut packet, mac.as_slice());
        }
        self.packet_number = self.packet_number.wrapping_add(1);
        Ok(packet)
    }

    /// Dumps `message` and sends it as the payload of one packet.
    pub fn send<M: ParseDump>(&mut self, message: &M) -> (r: Result<Vec<u8>, Error>)
        requires
            old(self).wf(),
        ensures
            final(self).wf(),
            match old(self)@.send_message::<M>(message@) {
                Ok((wire, next)) => r is Ok && r.unwrap()@ == wire && final(self)@ == next,
                Err(e) => r == Err::<Vec<u8>, Error>(e) && final(self)@ == old(self)@,
            },
    {
        let mut payload: Vec<u8> = Vec::new();
        message.dump(&mut payload)?;
        assert(payload@ =~= M::spec_dump(message@).unwrap());
        self.send_raw(payload.as_slice())
    }
}

/// Whether a payload is one that the reader keeps to itself: data to be
/// ignored, or a global request that wants no reply.
pub open spec fn spec_filtered(payload: Seq<u8>) -> bool {
    &&& payload.len() > 0
    &&& (payload[0] == 2 || (payload[0] == 80 && (GlobalRequest::spec_parse(payload) matches Ok((request, _))
        && !request.want_reply)))
}

/// Whether a payload is one that the reader keeps to itself.
pub fn filtered(payload: &[u8]) -> (b: bool)
    ensures
        b == spec_filtered(payload@),
{
    if payload.len() == 0 {
        return false;
    }
    if payload[0] == 2 {
        return true;
    }
    if payload[0] == 80 {
        return match GlobalRequest::parse(payload) {
            Ok((request, _)) => !request.want_reply,
            Err(_) => false,
        };
    }
    false
}

/// Whether two byte strings are the same.  The time taken depends on their
/// lengths alone, not on where they differ.
pub fn ct_eq(a: &[u8], b: &[u8]) -> (same: bool)
    ensures
        same == (a@ == b@),
{
    if a.len() != b.len() {
        return false;
    }
    let mut diff: u8 = 0;
    let mut i: usize = 0;
    while i < a.len()
        invariant
            a.len() == b.len(),
            i <= a.len(),
            (diff == 0) <==> (forall|j: int| 0 <= j < i ==> a@[j] == b@[j]),
        decreases a.len() - i,
    {
        let x = a[i];
        let y = b[i];
        let ghost before = diff;
        diff = diff | (x ^ y);
        assert((diff == 0) <==> (before == 0 && x == y)) by (bit_vector)
            requires
                diff == before | (x ^ y),
        ;
        i += 1;
    }
    if diff == 0 {
        assert(a@ =~= b@);
    }
    diff == 0
}

/// What a `PacketReader` holds.
pub ghost struct ReaderView {
    /// The sequence number of the next packet.
    pub packet_number: u32,
    /// The keys, once they are in use.
    pub keys: Option<Keys>,
    pub block_size: nat,
    /// The number of MAC bytes behind each packet.
    pub mac_size: nat,
}

impl ReaderView {
    /// The clear form of bytes that begin at the reader's position.
    pub open spec fn open(self, bytes: Seq<u8>) -> Seq<u8> {
        match self.keys {
            None => bytes,
            Some(keys) => keys.cipher.apply(bytes),
        }
    }

    /// Whether the keystream has room for `n` more bytes.
    pub open spec fn has_room(self, n: nat) -> bool {
        match self.keys {
            None => true,
            Some(keys) => keys.cipher.has_room(n),
        }
    }

    /// The reader after a packet whose encrypted part had `region` bytes.
    pub open spec fn after(self, region: nat) -> ReaderView {
        ReaderView {
            packet_number: spec_next(self.packet_number),
            keys: match self.keys {
                None => None,
                Some(keys) => Some(Keys { cipher: keys.cipher.advance(region), hmac: keys.hmac }),
            },
            block_size: self.block_size,
            mac_size: self.mac_size,
        }
    }

    /// What one packet at the start of `input` gives: its payload, or
    /// nothing where the payload is filtered, the number of bytes that the
    /// packet took, and the reader after it.
    ///
    /// The first block tells the length.  Input that ends before the first
    /// block or before the end of the packet is truncated: more bytes have
    /// to arrive.  Then, in this order: the MAC is checked, the padding count
    /// is held against the length, and the payload is taken out.
    pub open spec fn recv(self, input: Seq<u8>) -> Result<(Option<Seq<u8>>, nat, ReaderView), Error> {
        if input.len() < self.block_size {
            Err(Error::Truncated)
        } else if !self.has_room(self.block_size) {
            Err(Error::Unimplemented)
        } else {
            let head = self.open(input.take(self.block_size as int));
            let len = spec_be_u32(head) as nat;
            let region = 4 + len;
            let total = region + self.mac_size;
            if region < self.block_size {
                Err(Error::InvalidLength)
            } else if input.len() < total {
                Err(Error::Truncated)
            } else if !self.has_room(region) {
                Err(Error::Unimplemented)
            } else {
                let clear = self.open(input.take(region as int));
                let trailer = input.subrange(region as int, total as int);
                if self.keys matches Some(keys) && trailer != keys.hmac.mac(
                    spec_u32_be(self.packet_number) + clear,
                ) {
                    Err(Error::BadMac)
                } else {
                    let pad = clear[4] as nat;
                    if len < pad + 1 {
                        Err(Error::InvalidLength)
                    } else {
                        let payload = clear.subrange(5, 4 + len - pad);
                        Ok(
                            (
                                if spec_filtered(payload) {
                                    None
                                } else {
                                    Some(payload)
                                },
                                total,
                                self.after(region),
                            ),
                        )
                    }
                }
            }
        }
    }
}

/// The reading half of a packet stream.
pub struct PacketReader {
    packet_number: u32,
    keyed: bool,
    cipher: Cipher,
    hmac: Hmac,
    block_size: usize,
    mac_size: usize,
}

impl View for PacketReader {
    type V = ReaderView;

    closed spec fn view(&self) -> ReaderView {
        ReaderView {
            packet_number: self.packet_number,
            keys: if self.keyed {
                Some(Keys { cipher: self.cipher@, hmac: self.hmac@ })
            } else {
                None
            },
            block_size: self.block_size as nat,
            mac_size: self.mac_size as nat,
        }
    }
}

impl PacketReader {
    /// A reader at the start of a connection: sequence number zero, no keys,
    /// blocks of eight bytes, no MAC.
    pub fn new() -> (r: PacketReader)
        ensures
            r@ == (ReaderView { packet_number: 0, keys: None, block_size: 8, mac_size: 0 }),
            r.wf(),
    {
        PacketReader {
            packet_number: 0,
            keyed: false,
            cipher: Cipher::new([0u8; 32], [0u8; 16]),
            hmac: Hmac::new(&[]),
            block_size: 8,
            mac_size: 0,
        }
    }

    /// Puts keys in use.  The sequence number goes on as it is.
    pub fn set_decryptor(&mut self, decryptor: Cipher, hmac: Hmac, block_size: usize, mac_size: usize)
        requires
            valid_block_size(block_size as nat),
            mac_size <= 64,
        ensures
            final(self)@ == (ReaderView {
                packet_number: old(self)@.packet_number,
                keys: Some(Keys { cipher: decryptor@, hmac: hmac@ }),
                block_size: block_size as nat,
                mac_size: mac_size as nat,
            }),
            final(self).wf(),
    {
        self.keyed = true;
        self.cipher = decryptor;
        self.hmac = hmac;
        self.block_size = block_size;
        self.mac_size = mac_size;
    }

    /// Whether the sizes are valid.  They always are for a reader made by
    /// `new` and changed by `set_decryptor`.
    pub open spec fn wf(&self) -> bool {
        valid_block_size(self@.block_size) && self@.mac_size <= 64
    }

    /// The clear form of `bytes`, which begin at the reader's position.
    fn open(&self, bytes: &[u8]) -> (clear: Vec<u8>)
        requires
            self@.has_room(bytes@.len()),
        ensures
            clear@ == self@.open(bytes@),
    {
        let mut clear = slice_to_vec(bytes);
        if self.keyed {
            self.cipher.peek(&mut clear);
        }
        clear
    }

    /// Takes one packet from the start of `input`.  Returns its payload, or
    /// `None` for a payload that is filtered, and the number of bytes that
    /// the packet took.
    ///
    /// Fails with `Truncated` where the packet is not all there yet; the
    /// caller comes back with more bytes.  On any failure the reader is
    /// unchanged.
    pub fn recv_raw(&mut self, input: &[u8]) -> (r: Result<(Option<Vec<u8>>, usize), Error>)
        requires
            old(self).wf(),
        ensures
            final(self).wf(),
            match old(self)@.recv(input@) {
                Ok((payload, n, next)) => {
                    &&& r matches Ok((p, m))
                    &&& m == n
                    &&& n <= input@.len()
                    &&& match payload {
                        None => p is None,
                        Some(bytes) => p matches Some(v) && v@ == bytes,
                    }
                    &&& final(self)@ == next
                },
                Err(e) => r == Err::<(Option<Vec<u8>>, usize), Error>(e) && final(self)@ == old(self)@,
            },
    {
        let block = self.block_size;
        if input.len() < block {
            return Err(Error::Truncated);
        }
        if self.keyed && !self.cipher.has_room(block) {
            return Err(Error::Unimplemented);
        }
        let head = self.open(slice_subrange(input, 0, block));
        let len = match try_u32(head.as_slice()) {
            Ok(len) => len,
            Err(e) => return Err(e),
        };
        let region: u64 = 4 + len as u64;
        if region < block as u64 {
            return Err(Error::InvalidLength);
        }
        let total: u64 = region + self.mac_size as u64;
        if (input.len() as u64) < total {
            return Err(Error::Truncated);
        }
        let region: usize = region as usize;
        let total: usize = total as usize;
        if self.keyed && !self.cipher.has_room(region) {
            return Err(Error::Unimplemented);
        }
        let clear = self.open(slice_subrange(input, 0, region));
        if self.keyed {
            let mut signed: Vec<u8> = Vec::new();
            put_u32(&mut signed, self.packet_number);
            put_slice(&mut signed, clear.as_slice());
            assert(signed@ =~= spec_u32_be(self.packet_number) + clear@);
            let mac = self.hmac.mac(signed.as_slice());
            if !ct_eq(slice_subrange(input, region, total), mac.as_slice()) {
                return Err(Error::BadMac);
            }
        }
        let pad: usize = clear[4] as usize;
        if (len as usize) < pad + 1 {
            return Err(Error::InvalidLength);
        }
        let payload = slice_to_vec(slice_subrange(clear.as_slice(), 5, 4 + len as usize - pad));
        self.packet_number = self.packet_number.wrapping_add(1);
        if self.keyed {
            self.cipher.skip(region);
        }
        if filtered(payload.as_slice()) {
            Ok((None, total))
        } else {
            Ok((Some(payload), total))
        }
    }

    /// Takes one packet from the start of `input` and parses its payload as
    /// an `M`.  Returns `None` for a payload that is filtered.
    ///
    /// Where the packet is taken and its payload is no `M`, the parse error
    /// is returned and the reader stands behind the packet.
    pub fn recv<M: ParseDump>(&mut self, input: &[u8]) -> (r: Result<(Option<M>, usize), Error>)
        requires
            old(self).wf(),
        ensures
            final(self).wf(),
            match old(self)@.recv(input@) {
                Err(e) => r == Err::<(Option<M>, usize), Error>(e) && final(self)@ == old(self)@,
                Ok((None, n, next)) => r matches Ok((None, m)) && m == n && final(self)@ == next,
                Ok((Some(payload), n, next)) => {
                    &&& final(self)@ == next
                    &&& match M::spec_parse(payload) {
                        Ok((message, _)) => r matches Ok((Some(got), m)) && m == n && got@ == message,
                        Err(e) => r == Err::<(Option<M>, usize), Error>(e),
                    }
                },
            },
    {
        let (payload, n) = self.recv_raw(input)?;
        match payload {
            None => Ok((None, n)),
            Some(bytes) => {
                let (message, _) = M::parse(bytes.as_slice())?;
                Ok((Some(message), n))
            },
        }
    }
}

/// Whether a reader stands where a writer stands: the same sequence number,
/// the same keys at the same keystream position, the same block size, and a
/// MAC of 32 bytes exactly where keys are in use.
pub open spec fn in_step(writer: WriterView, reader: ReaderView) -> bool {
    &&& reader.packet_number == writer.packet_number
    &&& reader.keys == writer.keys
    &&& reader.block_size == writer.block_size
    &&& reader.mac_size == if writer.keys is Some {
        32nat
    } else {
        0nat
    }
}

/// What a writer sends, a reader in step with it receives: the packet takes
/// exactly the bytes that were sent, whatever follows them; the payload comes
/// out as it went in, unless it is one that the reader filters; and the two
/// are in step again.  So a record of one direction can be checked later
/// from the keys and the first sequence number alone.
pub proof fn lemma_send_recv(writer: WriterView, reader: ReaderView, payload: Seq<u8>, more: Seq<u8>)
    requires
        valid_block_size(writer.block_size),
        in_step(writer, reader),
    ensures
        writer.send(payload) matches Ok((wire, next)) ==> {
            &&& reader.recv(wire + more) matches Ok((got, n, after))
            &&& n == wire.len()
            &&& got == if spec_filtered(payload) {
                None
            } else {
                Some(payload)
            }
            &&& in_step(next, after)
        },
{
    if let Ok((wire, next)) = writer.send(payload) {
        let block = writer.block_size;
        let pad = spec_padding(payload.len(), block, writer.keys is Some);
        let frame = spec_frame(payload, pad);
        lemma_frame(payload, block, writer.keys is Some);
        let input = wire + more;
        let region = frame.len();
        assert(frame.take(block as int).take(4) =~= frame.take(4));
        lemma_be_u32_prefix(frame.take(block as int), frame);
        match writer.keys {
            None => {
                assert(input.take(block as int) =~= frame.take(block as int));
                assert(input.take(region as int) =~= frame);
            },
            Some(keys) => {
                let c = keys.cipher;
                let enc = c.apply(frame);
                let mac = keys.hmac.mac(spec_u32_be(writer.packet_number) + frame);
                assert(mac.len() == 32);
                assert(input.take(block as int) =~= enc.take(block as int));
                assert(enc.take(block as int) =~= c.apply(frame.take(block as int)));
                lemma_xor_stream_twice(c.key, c.iv, c.pos, frame.take(block as int));
                assert(input.take(region as int) =~= enc);
                lemma_xor_stream_twice(c.key, c.iv, c.pos, frame);
                assert(input.subrange(region as int, region as int + 32) =~= mac);
            },
        }
        assert(reader.open(input.take(block as int)) == frame.take(block as int));
        assert(reader.open(input.take(region as int)) == frame);
        assert(frame.subrange(5, 4 + (frame.len() - 4) - pad) =~= payload);
    }
}

/// The shape of what is sent: without the MAC of 32 bytes that follows once
/// keys are in use, the bytes are a whole number of blocks; in clear they
/// begin with their own length less four; and where keys are in use they
/// hold at least four bytes of padding.
pub proof fn lemma_send_shape(writer: WriterView, payload: Seq<u8>)
    requires
        valid_block_size(writer.block_size),
    ensures
        writer.send(payload) matches Ok((wire, next)) ==> {
            let mac_size = if writer.keys is Some {
                32nat
            } else {
                0nat
            };
            let region = (wire.len() - mac_size) as nat;
            let clear = match writer.keys {
                None => wire.take(region as int),
                Some(keys) => keys.cipher.apply(wire.take(region as int)),
            };
            &&& wire.len() >= mac_size + writer.block_size
            &&& region % writer.block_size == 0
            &&& spec_be_u32(clear) == wire.len() - 4 - mac_size
            &&& writer.keys is Some ==> clear[4] >= 4
            &&& next.packet_number == spec_next(writer.packet_number)
        },
{
    if let Ok((wire, next)) = writer.send(payload) {
        let pad = spec_padding(payload.len(), writer.block_size, writer.keys is Some);
        let frame = spec_frame(payload, pad);
        lemma_frame(payload, writer.block_size, writer.keys is Some);
        match writer.keys {
            None => {
                assert(wire.take(frame.len() as int) =~= frame);
            },
            Some(keys) => {
                let c = keys.cipher;
                let mac = keys.hmac.mac(spec_u32_be(writer.packet_number) + frame);
                assert(mac.len() == 32);
                assert(wire.take(frame.len() as int) =~= c.apply(frame));
                lemma_xor_stream_twice(c.key, c.iv, c.pos, frame);
            },
        }
    }
}

/// A reader with keys takes no packet on trust.  Where the input holds a
/// whole packet by the length that its first block decrypts to, and the
/// bytes behind the packet are not the MAC of the sequence number and the
/// decrypted packet, the packet is rejected as a bad MAC.  A packet that was
/// written without the keys is such a packet, unless what stands behind it
/// happens to be that MAC.
pub proof fn lemma_bad_mac(reader: ReaderView, input: Seq<u8>)
    requires
        reader.keys is Some,
        input.len() >= reader.block_size,
        reader.has_room(reader.block_size),
        ({
            let len = spec_be_u32(reader.open(input.take(reader.block_size as int))) as nat;
            &&& 4 + len >= reader.block_size
            &&& input.len() >= 4 + len + reader.mac_size
            &&& reader.has_room(4 + len)
            &&& input.subrange(4 + len as int, 4 + len as int + reader.mac_size as int) != reader.keys.unwrap().hmac.mac(
                spec_u32_be(reader.packet_number) + reader.open(input.take(4 + len as int)),
            )
        }),
    ensures
        reader.recv(input) == Err::<(Option<Seq<u8>>, nat, ReaderView), Error>(Error::BadMac),
{
}

/// What a reader with keys takes carries the MAC of the sequence number and
/// the decrypted packet.
pub proof fn lemma_taken_is_authentic(reader: ReaderView, input: Seq<u8>)
    requires
        reader.keys is Some,
    ensures
        reader.recv(input) matches Ok((_, n, _)) ==> ({
            let region = (n - reader.mac_size) as int;
            &&& n >= reader.mac_size
            &&& input.subrange(region, n as int) == reader.keys.unwrap().hmac.mac(
                spec_u32_be(reader.packet_number) + reader.open(input.take(region)),
            )
        }),
{
}

} // verus!
