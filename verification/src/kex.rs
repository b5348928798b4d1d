//! Key exchange: the exchange hash, the check of the host's signature and
//! the derivation of the six keys.

use crate::crypto::{ed25519_verify, sha256_digest, spec_ed25519_verify, spec_sha256};
use crate::error::Error;
use crate::messages::{Blob, BlobView, ExchangeHash, ExchangeHashView, KexdhReply, KexdhReplyView, UnsignedMpInt};
use crate::mpint::spec_be_nat;
use crate::parsedump::{put_slice, put_u8, text_is, try_get, ParseDump};
use vstd::prelude::*;
use vstd::slice::slice_to_vec;

verus! {

/// The SHA-256 digest of the bytes of `data`.  Fails as the dump of `data`
/// fails.
pub fn sha256<P: ParseDump>(data: &P) -> (r: Result<[u8; 32], Error>)
    ensures
        match P::spec_dump(data@) {
            Ok(bytes) => r matches Ok(digest) && digest@ == spec_sha256(bytes),
            Err(e) => r == Err::<[u8; 32], Error>(e),
        },
{
    let mut bytes: Vec<u8> = Vec::new();
    data.dump(&mut bytes)?;
    assert(bytes@ =~= P::spec_dump(data@).unwrap());
    Ok(sha256_digest(bytes.as_slice()))
}

/// The three values that a `KexdhReply` has to hold, by their sizes.
pub struct ReplyKeys {
    /// The host's Ed25519 public key.
    pub host_key: [u8; 32],
    /// The server's ephemeral X25519 public key.
    pub server_ephemeral: [u8; 32],
    /// The host's signature over the exchange hash.
    pub signature: [u8; 64],
}

/// Whether the reply holds values of the right sizes: 32 bytes of host key,
/// 32 bytes of ephemeral key, 64 bytes of signature.
pub open spec fn spec_reply_sizes(reply: KexdhReplyView) -> bool {
    &&& reply.server_public_host_key.content.len() == 32
    &&& reply.server_ephemeral_pubkey.len() == 32
    &&& reply.exchange_hash_signature.content.len() == 64
}

/// Whether both blobs of the reply are of the format `ssh-ed25519`.
pub open spec fn spec_reply_formats(reply: KexdhReplyView) -> bool {
    &&& reply.server_public_host_key.header == "ssh-ed25519"@
    &&& reply.exchange_hash_signature.header == "ssh-ed25519"@
}

/// Takes the host key, the server's ephemeral key and the signature out of a
/// reply.  Fails with `InvalidData` where a size is wrong, and with
/// `Unimplemented` where the sizes are right and a blob is of another format
/// than `ssh-ed25519`.
pub fn reply_keys(reply: &KexdhReply) -> (r: Result<ReplyKeys, Error>)
    ensures
        !spec_reply_sizes(reply@) ==> r == Err::<ReplyKeys, Error>(Error::InvalidData),
        spec_reply_sizes(reply@) && !spec_reply_formats(reply@) ==> r == Err::<ReplyKeys, Error>(
            Error::Unimplemented,
        ),
        spec_reply_sizes(reply@) && spec_reply_formats(reply@) ==> (r matches Ok(keys) && keys.host_key@
            == reply@.server_public_host_key.content && keys.server_ephemeral@
            == reply@.server_ephemeral_pubkey && keys.signature@
            == reply@.exchange_hash_signature.content),
{
    if reply.server_public_host_key.content.len() != 32 || reply.server_ephemeral_pubkey.len() != 32
        || reply.exchange_hash_signature.content.len() != 64 {
        return Err(Error::InvalidData);
    }
    if !text_is(&reply.server_public_host_key.header, "ssh-ed25519") || !text_is(
        &reply.exchange_hash_signature.header,
        "ssh-ed25519",
    ) {
        return Err(Error::Unimplemented);
    }
    let host_key = try_get::<32>(reply.server_public_host_key.content.as_slice())?;
    let server_ephemeral = try_get::<32>(reply.server_ephemeral_pubkey.as_slice())?;
    let signature = try_get::<64>(reply.exchange_hash_signature.content.as_slice())?;
    assert(host_key@ =~= reply@.server_public_host_key.content);
    assert(server_ephemeral@ =~= reply@.server_ephemeral_pubkey);
    assert(signature@ =~= reply@.exchange_hash_signature.content);
    Ok(ReplyKeys { host_key, server_ephemeral, signature })
}

/// The record whose bytes are hashed into the exchange hash.
pub open spec fn spec_exchange_record(
    client_header: Seq<u8>,
    server_header: Seq<u8>,
    client_kexinit_payload: Seq<u8>,
    server_kexinit_payload: Seq<u8>,
    server_public_host_key: BlobView,
    client_ephemeral_pubkey: Seq<u8>,
    server_ephemeral_pubkey: Seq<u8>,
    shared_secret: Seq<u8>,
) -> ExchangeHashView {
    ExchangeHashView {
        client_header,
        server_header,
        client_kexinit_payload,
        server_kexinit_payload,
        server_public_host_key,
        client_ephemeral_pubkey,
        server_ephemeral_pubkey,
        shared_secret: spec_be_nat(shared_secret),
    }
}

/// The exchange hash: the SHA-256 digest of the two version banners, the two
/// `Kexinit` payloads, the host key blob, the two ephemeral public keys and
/// the shared secret, each in its wire form, the shared secret as a number.
/// Fails with `InvalidLength` where one of them is too long for its length
/// field.
pub fn exchange_hash(
    client_header: &[u8],
    server_header: &[u8],
    client_kexinit_payload: &[u8],
    server_kexinit_payload: &[u8],
    server_public_host_key: &Blob,
    client_ephemeral_pubkey: &[u8],
    server_ephemeral_pubkey: &[u8],
    shared_secret: &[u8],
) -> (r: Result<[u8; 32], Error>)
    ensures
        match ExchangeHash::spec_dump(
            spec_exchange_record(
                client_header@,
                server_header@,
                client_kexinit_payload@,
                server_kexinit_payload@,
                server_public_host_key@,
                client_ephemeral_pubkey@,
                server_ephemeral_pubkey@,
                shared_secret@,
            ),
        ) {
            Ok(bytes) => r matches Ok(digest) && digest@ == spec_sha256(bytes),
            Err(e) => r == Err::<[u8; 32], Error>(e),
        },
{
    let record = ExchangeHash {
        client_header: slice_to_vec(client_header),
        server_header: slice_to_vec(server_header),
        client_kexinit_payload: slice_to_vec(client_kexinit_payload),
        server_kexinit_payload: slice_to_vec(server_kexinit_payload),
        server_public_host_key: Blob {
            blob_len: server_public_host_key.blob_len,
            header: server_public_host_key.header.clone(),
            content: server_public_host_key.content.clone(),
        },
        client_ephemeral_pubkey: slice_to_vec(client_ephemeral_pubkey),
        server_ephemeral_pubkey: slice_to_vec(server_ephemeral_pubkey),
        shared_secret: UnsignedMpInt(slice_to_vec(shared_secret)),
    };
    assert(record@.server_public_host_key.content =~= server_public_host_key@.content);
    assert(record@ == spec_exchange_record(
        client_header@,
        server_header@,
        client_kexinit_payload@,
        server_kexinit_payload@,
        server_public_host_key@,
        client_ephemeral_pubkey@,
        server_ephemeral_pubkey@,
        shared_secret@,
    ));
    sha256(&record)
}

/// Checks the host's signature over the exchange hash.  Fails with
/// `HostKeyNotVerifiable` unless it is a valid Ed25519 signature under the
/// host key.
pub fn verify_host(host_key: &[u8; 32], exchange_hash: &[u8; 32], signature: &[u8; 64]) -> (r: Result<(), Error>)
    ensures
        spec_ed25519_verify(host_key@, exchange_hash@, signature@) ==> r is Ok,
        !spec_ed25519_verify(host_key@, exchange_hash@, signature@) ==> r == Err::<(), Error>(
            Error::HostKeyNotVerifiable,
        ),
{
    if ed25519_verify(host_key, exchange_hash.as_slice(), signature) {
        Ok(())
    } else {
        Err(Error::HostKeyNotVerifiable)
    }
}

/// The first `blocks` digests of the key material for `magic`, one after the
/// other.  The first digest is over the shared secret, the exchange hash,
/// the magic byte and the session id; each further one is over the shared
/// secret, the exchange hash and all the digests before it.
pub open spec fn spec_key_material(
    secret: Seq<u8>,
    exchange_hash: Seq<u8>,
    session_id: Seq<u8>,
    magic: u8,
    blocks: nat,
) -> Seq<u8>
    decreases blocks,
{
    if blocks == 0 {
        Seq::<u8>::empty()
    } else if blocks == 1 {
        spec_sha256(secret + exchange_hash + seq![magic] + session_id)
    } else {
        let before = spec_key_material(secret, exchange_hash, session_id, magic, (blocks - 1) as nat);
        before + spec_sha256(secret + exchange_hash + before)
    }
}

/// The key of `n` bytes for `magic`: the first `n` bytes of as many digests
/// of key material as it takes.
pub open spec fn spec_derive(secret: Seq<u8>, exchange_hash: Seq<u8>, session_id: Seq<u8>, magic: u8, n: nat) -> Seq<
    u8,
> {
    spec_key_material(secret, exchange_hash, session_id, magic, (n + 31) / 32).take(n as int)
}

/// Key material grows by one digest of 32 bytes with each block.
pub proof fn lemma_key_material_len(
    secret: Seq<u8>,
    exchange_hash: Seq<u8>,
    session_id: Seq<u8>,
    magic: u8,
    blocks: nat,
)
    ensures
        spec_key_material(secret, exchange_hash, session_id, magic, blocks).len() == 32 * blocks,
    decreases blocks,
{
    if blocks > 1 {
        lemma_key_material_len(secret, exchange_hash, session_id, magic, (blocks - 1) as nat);
    }
}

/// A derived key has the length that was asked for.
pub proof fn lemma_derive_len(secret: Seq<u8>, exchange_hash: Seq<u8>, session_id: Seq<u8>, magic: u8, n: nat)
    ensures
        spec_derive(secret, exchange_hash, session_id, magic, n).len() == n,
{
    lemma_key_material_len(secret, exchange_hash, session_id, magic, (n + 31) / 32);
}

/// The six keys of a connection.
pub struct KeyExchangeOutput {
    /// Initial counter block, client to server.
    pub c2s_iv: [u8; 16],
    /// Initial counter block, server to client.
    pub s2c_iv: [u8; 16],
    /// Encryption key, client to server.
    pub c2s_key: [u8; 32],
    /// Encryption key, server to client.
    pub s2c_key: [u8; 32],
    /// Integrity key, client to server.
    pub c2s_hmac: [u8; 32],
    /// Integrity key, server to client.
    pub s2c_hmac: [u8; 32],
}

impl KeyExchangeOutput {
    /// Derives the key of `N` bytes for `magic_byte` from the shared secret
    /// in its wire form, the exchange hash and the session id.
    pub fn fill_array<const N: usize>(
        dumped_shared_secret: &[u8],
        exchange_hash: &[u8],
        session_id: &[u8],
        magic_byte: u8,
    ) -> (out: [u8; N])
        ensures
            out@ == spec_derive(dumped_shared_secret@, exchange_hash@, session_id@, magic_byte, N as nat),
    {
        let ghost k = dumped_shared_secret@;
        let ghost h = exchange_hash@;
        let ghost sid = session_id@;
        let mut out_key = [0u8; N];
        let mut material: Vec<u8> = Vec::new();
        let mut blocks: usize = 0;
        while material.len() < N
            invariant
                material@ == spec_key_material(k, h, sid, magic_byte, blocks as nat),
                material@.len() == 32 * blocks,
                k == dumped_shared_secret@,
                h == exchange_hash@,
                sid == session_id@,
                32 * blocks < N + 32,
            decreases N + 32 - 32 * blocks,
        {
            let mut input: Vec<u8> = Vec::new();
            put_slice(&mut input, dumped_shared_secret);
            put_slice(&mut input, exchange_hash);
            if blocks == 0 {
                put_u8(&mut input, magic_byte);
                put_slice(&mut input, session_id);
                assert(input@ =~= k + h + seq![magic_byte] + sid);
            } else {
                put_slice(&mut input, material.as_slice());
                assert(input@ =~= k + h + material@);
            }
            let digest = sha256_digest(input.as_slice());
            assert(digest@.len() == 32);
            put_slice(&mut material, digest.as_slice());
            blocks += 1;
            assert(material@ =~= spec_key_material(k, h, sid, magic_byte, blocks as nat));
        }
        assert(blocks as nat == (N as nat + 31) / 32);
        let mut i: usize = 0;
        while i < N
            invariant
                i <= N <= material@.len(),
                forall|j: int| 0 <= j < i ==> out_key@[j] == material@[j],
            decreases N - i,
        {
            out_key[i] = material[i];
            i += 1;
        }
        assert(out_key@ =~= material@.take(N as int));
        out_key
    }

    /// Derives the six keys.  Fails with `InvalidLength` where the shared
    /// secret is too long for its length field.
    pub fn new(shared_secret: UnsignedMpInt, exchange_hash: &[u8], session_id: &[u8]) -> (r: Result<
        KeyExchangeOutput,
        Error,
    >)
        ensures
            match UnsignedMpInt::spec_dump(shared_secret@) {
                Err(e) => r == Err::<KeyExchangeOutput, Error>(e),
                Ok(k) => r matches Ok(keys) && keys.derived_from(k, exchange_hash@, session_id@),
            },
    {
        let mut dumped: Vec<u8> = Vec::new();
        shared_secret.dump(&mut dumped)?;
        assert(dumped@ =~= UnsignedMpInt::spec_dump(shared_secret@).unwrap());
        let k = dumped.as_slice();
        Ok(
            KeyExchangeOutput {
                c2s_iv: Self::fill_array::<16>(k, exchange_hash, session_id, 65),
                s2c_iv: Self::fill_array::<16>(k, exchange_hash, session_id, 66),
                c2s_key: Self::fill_array::<32>(k, exchange_hash, session_id, 67),
                s2c_key: Self::fill_array::<32>(k, exchange_hash, session_id, 68),
                c2s_hmac: Self::fill_array::<32>(k, exchange_hash, session_id, 69),
                s2c_hmac: Self::fill_array::<32>(k, exchange_hash, session_id, 70),
            },
        )
    }

    /// Whether these are the six keys for a shared secret in its wire form,
    /// an exchange hash and a session id: the keys for the letters A to F.
    pub open spec fn derived_from(&self, secret: Seq<u8>, exchange_hash: Seq<u8>, session_id: Seq<u8>) -> bool {
        &&& self.c2s_iv@ == spec_derive(secret, exchange_hash, session_id, 65, 16)
        &&& self.s2c_iv@ == spec_derive(secret, exchange_hash, session_id, 66, 16)
        &&& self.c2s_key@ == spec_derive(secret, exchange_hash, session_id, 67, 32)
        &&& self.s2c_key@ == spec_derive(secret, exchange_hash, session_id, 68, 32)
        &&& self.c2s_hmac@ == spec_derive(secret, exchange_hash, session_id, 69, 32)
        &&& self.s2c_hmac@ == spec_derive(secret, exchange_hash, session_id, 70, 32)
    }
}

} // verus!
