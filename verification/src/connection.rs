//! The way to an authenticated connection, as a state machine.
//!
//! The connection goes through its phases in order: version banners,
//! algorithm negotiation, key agreement, the switch to the new keys, the
//! request for the authentication service, and authentication.  In each
//! phase one message is expected.  The caller reads bytes from the socket,
//! hands them over, and sends what it gets back.

use crate::cipher::{Cipher, CipherView};
use crate::crypto::{spec_ed25519_sign, spec_ed25519_verify, spec_sha256, x25519_ephemeral, x25519_public, x25519_shared};
use crate::error::Error;
use crate::hmac::{Hmac, HmacView};
use crate::kex::{
    exchange_hash, reply_keys, spec_exchange_record, spec_reply_formats, spec_reply_sizes, verify_host,
    KeyExchangeOutput, ReplyKeys,
};
use crate::keygen::ed25519_blob_len;
use crate::messages::{
    Blob, BlobView, ExchangeHash, KexdhInit, KexdhInitView, KexdhReply, KexdhReplyView, Kexinit, KexinitView,
    Newkeys, ServiceAccept, ServiceRequest, ServiceRequestView, UnsignedMpInt, UserauthFailure,
    UserauthFailureView, UserauthPkOk, UserauthSuccess,
};
use crate::mpint::spec_be_nat;
use crate::namelist::spec_compatible;
use crate::packets::{Keys, PacketReader, PacketWriter, ReaderView, WriterView};
use crate::parsedump::{bytes_eq, put_slice, put_u8, ParseDump};
use crate::userauth::{sign_userauth, spec_signed_blob, UserauthRequest, UserauthRequestView};
use vstd::prelude::*;
use vstd::slice::{slice_subrange, slice_to_vec};
use vstd::string::StringExecFns;
use vstd::utf8::encode_utf8;

verus! {

/// The version banner of this client, without the line end.
pub const VERSION_HEADER: &'static str = "SSH-2.0-tinyssh+1.0";

/// How a user proves who they are.
pub enum Auth {
    /// By password.
    Password { username: String, password: String },
    /// By an Ed25519 key pair: the secret seed, then the public key.
    Ed25519 { username: String, keypair: [u8; 64] },
}

/// What an `Auth` holds.
pub ghost enum AuthView {
    Password { username: Seq<char>, password: Seq<char> },
    Ed25519 { username: Seq<char>, keypair: Seq<u8> },
}

impl View for Auth {
    type V = AuthView;

    open spec fn view(&self) -> AuthView {
        match self {
            Auth::Password { username, password } => AuthView::Password {
                username: username@,
                password: password@,
            },
            Auth::Ed25519 { username, keypair } => AuthView::Ed25519 { username: username@, keypair: keypair@ },
        }
    }
}

/// Credentials as a caller may hold them: the key pair as bytes of any
/// length.
pub enum Creds {
    /// By password.
    Password { username: String, password: String },
    /// By an Ed25519 key pair.
    PrivateKey { username: String, priv_key: Vec<u8> },
}

impl Auth {
    /// Takes credentials as they are held.  Fails with `InvalidKeypair`
    /// unless a key pair has 64 bytes.
    pub fn from_creds(creds: Creds) -> (r: Result<Auth, Error>)
        ensures
            match creds {
                Creds::Password { username, password } => r matches Ok(auth) && auth@ == (AuthView::Password {
                    username: username@,
                    password: password@,
                }),
                Creds::PrivateKey { username, priv_key } => if priv_key@.len() == 64 {
                    r matches Ok(auth) && auth@ == (AuthView::Ed25519 {
                        username: username@,
                        keypair: priv_key@,
                    })
                } else {
                    r matches Err(e) && e == Error::InvalidKeypair
                },
            },
    {
        match creds {
            Creds::Password { username, password } => Ok(Auth::Password { username, password }),
            Creds::PrivateKey { username, priv_key } => {
                if priv_key.len() != 64 {
                    return Err(Error::InvalidKeypair);
                }
                let mut keypair = [0u8; 64];
                let mut i: usize = 0;
                while i < 64
                    invariant
                        i <= 64,
                        priv_key@.len() == 64,
                        forall|j: int| 0 <= j < i ==> keypair@[j] == priv_key@[j],
                    decreases 64 - i,
                {
                    keypair[i] = priv_key[i];
                    i += 1;
                }
                assert(keypair@ =~= priv_key@);
                Ok(Auth::Ed25519 { username, keypair })
            },
        }
    }
}

/// Where a connection stands.
#[derive(Copy, Clone, Debug, PartialEq, Eq, Structural)]
pub enum Phase {
    /// Waiting for the server's version banner.
    Banner,
    /// Waiting for the server's `Kexinit`.
    AlgorithmExchange,
    /// Waiting for the server's `KexdhReply`.
    Ecdh,
    /// Waiting for the server's `Newkeys`.
    NewKeys,
    /// Waiting for the server's `ServiceAccept`.
    ServiceRequest,
    /// Waiting for the server to say that the public key is acceptable.
    PublicKeyQuery,
    /// Waiting for the server's verdict on the credentials.
    AuthResult,
    /// Authenticated.  Channels can be opened.
    Authenticated,
}

/// Whether `line` begins with `prefix`.
pub open spec fn spec_has_prefix(line: Seq<u8>, prefix: Seq<u8>) -> bool {
    prefix.len() <= line.len() && line.take(prefix.len() as int) == prefix
}

/// Whether `line` is a version banner that this client accepts: one that
/// begins with `SSH-2.0-` or with `SSH-1.99-`.
pub open spec fn spec_is_banner(line: Seq<u8>) -> bool {
    spec_has_prefix(line, encode_utf8("SSH-2.0-"@)) || spec_has_prefix(line, encode_utf8("SSH-1.99-"@))
}

/// Whether `line` ends with a carriage return and a line feed.
pub open spec fn spec_ends_crlf(line: Seq<u8>) -> bool {
    line.len() >= 2 && line[line.len() - 2] == 13 && line[line.len() - 1] == 10
}

/// Whether `line` begins with `prefix`.
pub fn has_prefix(line: &[u8], prefix: &[u8]) -> (b: bool)
    ensures
        b == spec_has_prefix(line@, prefix@),
{
    if line.len() < prefix.len() {
        return false;
    }
    bytes_eq(slice_subrange(line, 0, prefix.len()), prefix)
}

/// Whether `line` is a version banner that this client accepts.
pub fn is_banner(line: &[u8]) -> (b: bool)
    ensures
        b == spec_is_banner(line@),
{
    has_prefix(line, "SSH-2.0-".as_bytes()) || has_prefix(line, "SSH-1.99-".as_bytes())
}

/// The `Kexinit` of this client: one name in each algorithm list, no
/// languages, a cookie of zeros.
pub open spec fn spec_client_kexinit() -> KexinitView {
    KexinitView {
        cookie: Seq::new(16, |i: int| 0u8),
        kex_algorithms: "curve25519-sha256"@,
        server_host_key_algorithms: "ssh-ed25519"@,
        encryption_algorithms_client_to_server: "aes256-ctr"@,
        encryption_algorithms_server_to_client: "aes256-ctr"@,
        mac_algorithms_client_to_server: "hmac-sha2-256"@,
        mac_algorithms_server_to_client: "hmac-sha2-256"@,
        compression_algorithms_client_to_server: "none"@,
        compression_algorithms_server_to_client: "none"@,
        languages_client_to_server: ""@,
        languages_server_to_client: ""@,
        first_kex_packet_follows: false,
        nop: 0,
    }
}

/// The `Kexinit` of this client.
pub fn client_kexinit() -> (k: Kexinit)
    ensures
        k@ == spec_client_kexinit(),
{
    let k = Kexinit {
        cookie: [0u8; 16],
        kex_algorithms: String::from_str("curve25519-sha256"),
        server_host_key_algorithms: String::from_str("ssh-ed25519"),
        encryption_algorithms_client_to_server: String::from_str("aes256-ctr"),
        encryption_algorithms_server_to_client: String::from_str("aes256-ctr"),
        mac_algorithms_client_to_server: String::from_str("hmac-sha2-256"),
        mac_algorithms_server_to_client: String::from_str("hmac-sha2-256"),
        compression_algorithms_client_to_server: String::from_str("none"),
        compression_algorithms_server_to_client: String::from_str("none"),
        languages_client_to_server: String::from_str(""),
        languages_server_to_client: String::from_str(""),
        first_kex_packet_follows: false,
        nop: 0,
    };
    assert(k.cookie@ =~= Seq::new(16, |i: int| 0u8));
    k
}

/// A connection on its way to authentication, and after it.
pub struct Connection {
    /// The reading half of the packet stream.
    pub reader: PacketReader,
    /// The writing half of the packet stream.
    pub writer: PacketWriter,
    /// The number for the next channel.
    pub next_client_channel: u32,
    /// Where the connection stands.
    pub phase: Phase,
    /// The credentials.
    pub auth: Auth,
    /// The server's version banner, without the line end.
    pub peer_version: Vec<u8>,
    /// The payload of this client's `Kexinit`.
    pub client_kexinit_payload: Vec<u8>,
    /// The payload of the server's `Kexinit`.
    pub server_kexinit_payload: Vec<u8>,
    /// This client's ephemeral public key.
    pub client_ephemeral: [u8; 32],
    /// The first exchange hash of the connection.
    pub session_id: [u8; 32],
    /// The keys that wait for the server's `Newkeys`.
    pub keys: Option<KeyExchangeOutput>,
    /// This client's ephemeral secret, from the time its public key goes
    /// out until the server's reply comes in.
    pub secret: Option<x25519_dalek::EphemeralSecret>,
}

/// What a `Connection` holds, but for the ephemeral secret.
pub ghost struct ConnectionView {
    pub reader: ReaderView,
    pub writer: WriterView,
    pub next_client_channel: u32,
    pub phase: Phase,
    pub auth: AuthView,
    pub peer_version: Seq<u8>,
    pub client_kexinit_payload: Seq<u8>,
    pub server_kexinit_payload: Seq<u8>,
    pub client_ephemeral: Seq<u8>,
    pub session_id: Seq<u8>,
    pub keys: Option<KeyExchangeOutput>,
    /// Whether the ephemeral secret is at hand.
    pub has_secret: bool,
}

impl View for Connection {
    type V = ConnectionView;

    open spec fn view(&self) -> ConnectionView {
        ConnectionView {
            reader: self.reader@,
            writer: self.writer@,
            next_client_channel: self.next_client_channel,
            phase: self.phase,
            auth: self.auth@,
            peer_version: self.peer_version@,
            client_kexinit_payload: self.client_kexinit_payload@,
            server_kexinit_payload: self.server_kexinit_payload@,
            client_ephemeral: self.client_ephemeral@,
            session_id: self.session_id@,
            keys: self.keys,
            has_secret: self.secret is Some,
        }
    }
}

/// The bytes of a result, where there are any.
pub open spec fn wire_of(r: Result<Vec<u8>, Error>) -> Result<Seq<u8>, Error> {
    match r {
        Ok(v) => Ok(v@),
        Err(e) => Err(e),
    }
}

/// The public key blob of a key pair: the format `ssh-ed25519` and the
/// second half of the pair.
pub open spec fn spec_public_key_blob(keypair: Seq<u8>) -> BlobView {
    BlobView { blob_len: 51, header: "ssh-ed25519"@, content: keypair.skip(32) }
}

/// The signature blob for a signature: the format `ssh-ed25519` and the 64
/// bytes.
pub open spec fn spec_signature_blob(signature: Seq<u8>) -> BlobView {
    BlobView { blob_len: 83, header: "ssh-ed25519"@, content: signature }
}

/// The first authentication request for the credentials: the password, or
/// the question whether the public key would be accepted.
pub open spec fn spec_first_request(auth: AuthView) -> UserauthRequestView {
    match auth {
        AuthView::Password { username, password } => UserauthRequestView::Password {
            username,
            service_name: "ssh-connection"@,
            password,
            new_password: None,
        },
        AuthView::Ed25519 { username, keypair } => UserauthRequestView::PublicKey {
            username,
            service_name: "ssh-connection"@,
            algorithm: "ssh-ed25519"@,
            blob: spec_public_key_blob(keypair),
            signature: None,
        },
    }
}

/// The authentication request that carries a signature.
pub open spec fn spec_signed_request(username: Seq<char>, keypair: Seq<u8>, signature: Seq<u8>) -> UserauthRequestView {
    UserauthRequestView::PublicKey {
        username,
        service_name: "ssh-connection"@,
        algorithm: "ssh-ed25519"@,
        blob: spec_public_key_blob(keypair),
        signature: Some(spec_signature_blob(signature)),
    }
}

impl ConnectionView {
    /// A connection at its start.
    pub open spec fn initial(auth: AuthView) -> ConnectionView {
        ConnectionView {
            reader: ReaderView { packet_number: 0, keys: None, block_size: 8, mac_size: 0 },
            writer: WriterView { packet_number: 0, keys: None, block_size: 8 },
            next_client_channel: 0,
            phase: Phase::Banner,
            auth,
            peer_version: Seq::<u8>::empty(),
            client_kexinit_payload: Seq::<u8>::empty(),
            server_kexinit_payload: Seq::<u8>::empty(),
            client_ephemeral: Seq::new(32, |i: int| 0u8),
            session_id: Seq::new(32, |i: int| 0u8),
            keys: None,
            has_secret: false,
        }
    }

    /// What a line from the server does in the banner phase.  A line that
    /// is no banner is dropped.  A banner has to end with a carriage return
    /// and a line feed; it is kept without them, and this client's `Kexinit`
    /// goes out.
    pub open spec fn after_line(self, line: Seq<u8>, out: Result<Seq<u8>, Error>, next: ConnectionView) -> bool {
        if self.phase != Phase::Banner {
            out == Err::<Seq<u8>, Error>(Error::InvalidData) && next == self
        } else if !spec_is_banner(line) {
            out == Ok::<Seq<u8>, Error>(Seq::<u8>::empty()) && next == self
        } else if !spec_ends_crlf(line) {
            out == Err::<Seq<u8>, Error>(Error::InvalidData) && next == self
        } else {
            match Kexinit::spec_dump(spec_client_kexinit()) {
                Err(e) => out == Err::<Seq<u8>, Error>(e) && next == self,
                Ok(payload) => match self.writer.send(payload) {
                    Err(e) => out == Err::<Seq<u8>, Error>(e) && next == self,
                    Ok((wire, writer)) => out == Ok::<Seq<u8>, Error>(wire) && next == (ConnectionView {
                        phase: Phase::AlgorithmExchange,
                        writer,
                        peer_version: line.take(line.len() - 2),
                        client_kexinit_payload: payload,
                        ..self
                    }),
                },
            }
        }
    }

    /// What follows the server's `Kexinit`, once this client's ephemeral
    /// public key is known: the key goes out, and the server's payload is
    /// kept for the exchange hash.
    pub open spec fn after_public(
        self,
        payload: Seq<u8>,
        public: Seq<u8>,
        out: Result<Seq<u8>, Error>,
        next: ConnectionView,
    ) -> bool {
        match self.writer.send_message::<KexdhInit>(KexdhInitView { client_ephemeral_pubkey: public }) {
            Err(e) => out == Err::<Seq<u8>, Error>(e) && next == self,
            Ok((wire, writer)) => out == Ok::<Seq<u8>, Error>(wire) && next == (ConnectionView {
                phase: Phase::Ecdh,
                writer,
                server_kexinit_payload: payload,
                client_ephemeral: public,
                has_secret: true,
                ..self
            }),
        }
    }

    /// What the server's `Kexinit` does.  It has to parse and to offer the
    /// algorithms of this client.  The rest is `after_public`, for an
    /// ephemeral public key of 32 bytes that is new with every connection.
    pub open spec fn after_kexinit(
        self,
        payload: Seq<u8>,
        out: Result<Seq<u8>, Error>,
        next: ConnectionView,
    ) -> bool {
        match Kexinit::spec_parse(payload) {
            Err(e) => out == Err::<Seq<u8>, Error>(e) && next == self,
            Ok((server, _)) => if !spec_compatible(server, spec_client_kexinit()) {
                out == Err::<Seq<u8>, Error>(Error::NoAlgorithmOverlap) && next == self
            } else {
                exists|public: Seq<u8>|
                    public.len() == 32 && #[trigger] self.after_public(payload, public, out, next)
            },
        }
    }

    /// The exchange hash of this connection for a reply and a shared secret.
    pub open spec fn exchange_hash(self, reply: KexdhReplyView, shared_secret: Seq<u8>) -> Result<Seq<u8>, Error> {
        match ExchangeHash::spec_dump(
            spec_exchange_record(
                encode_utf8(VERSION_HEADER@),
                self.peer_version,
                self.client_kexinit_payload,
                self.server_kexinit_payload,
                reply.server_public_host_key,
                self.client_ephemeral,
                reply.server_ephemeral_pubkey,
                shared_secret,
            ),
        ) {
            Err(e) => Err(e),
            Ok(bytes) => Ok(spec_sha256(bytes)),
        }
    }

    /// What the server's reply does, once the secret shared with it is
    /// known.  The host's signature over the exchange hash has to verify.
    /// Then the exchange hash is the session id, the six keys are derived
    /// and kept, and `Newkeys` goes out.
    pub open spec fn after_reply(
        self,
        reply: KexdhReplyView,
        shared_secret: Seq<u8>,
        out: Result<Seq<u8>, Error>,
        next: ConnectionView,
    ) -> bool {
        match self.exchange_hash(reply, shared_secret) {
            Err(e) => out == Err::<Seq<u8>, Error>(e) && next == self,
            Ok(h) => if !spec_ed25519_verify(
                reply.server_public_host_key.content,
                h,
                reply.exchange_hash_signature.content,
            ) {
                out == Err::<Seq<u8>, Error>(Error::HostKeyNotVerifiable) && next == self
            } else {
                match UnsignedMpInt::spec_dump(spec_be_nat(shared_secret)) {
                    Err(e) => out == Err::<Seq<u8>, Error>(e) && next == self,
                    Ok(k) => match self.writer.send_message::<Newkeys>(Newkeys {  }) {
                        Err(e) => out == Err::<Seq<u8>, Error>(e) && next == self,
                        Ok((wire, writer)) => {
                            &&& out == Ok::<Seq<u8>, Error>(wire)
                            &&& next.keys matches Some(keys) && keys.derived_from(k, h, h)
                            &&& next == (ConnectionView {
                                phase: Phase::NewKeys,
                                writer,
                                session_id: h,
                                keys: next.keys,
                                ..self
                            })
                        },
                    },
                }
            },
        }
    }

    /// What the server's `KexdhReply` does.  It has to parse and to hold
    /// values of the right sizes and formats.  The ephemeral secret is used
    /// up.  The rest is `after_reply`, for the secret that this client's
    /// ephemeral secret and the server's ephemeral public key share.
    pub open spec fn after_kexdh_reply(
        self,
        payload: Seq<u8>,
        out: Result<Seq<u8>, Error>,
        next: ConnectionView,
    ) -> bool {
        match KexdhReply::spec_parse(payload) {
            Err(e) => out == Err::<Seq<u8>, Error>(e) && next == self,
            Ok((reply, _)) => if !spec_reply_sizes(reply) {
                out == Err::<Seq<u8>, Error>(Error::InvalidData) && next == self
            } else if !spec_reply_formats(reply) {
                out == Err::<Seq<u8>, Error>(Error::Unimplemented) && next == self
            } else if !self.has_secret {
                out == Err::<Seq<u8>, Error>(Error::InvalidData) && next == self
            } else {
                let used = ConnectionView { has_secret: false, ..self };
                exists|shared_secret: Seq<u8>|
                    shared_secret.len() == 32 && #[trigger] used.after_reply(reply, shared_secret, out, next)
            },
        }
    }

    /// The packet streams with the new keys in use: for sending, the keys
    /// for the letters A, C and E; for receiving, those for B, D and F.
    /// Blocks have sixteen bytes and the MAC has 32.
    pub open spec fn keyed(self, keys: KeyExchangeOutput) -> ConnectionView {
        ConnectionView {
            writer: WriterView {
                packet_number: self.writer.packet_number,
                keys: Some(
                    Keys {
                        cipher: CipherView { key: keys.c2s_key@, iv: keys.c2s_iv@, pos: 0 },
                        hmac: HmacView::keyed(keys.c2s_hmac@, Seq::<u8>::empty()),
                    },
                ),
                block_size: 16,
            },
            reader: ReaderView {
                packet_number: self.reader.packet_number,
                keys: Some(
                    Keys {
                        cipher: CipherView { key: keys.s2c_key@, iv: keys.s2c_iv@, pos: 0 },
                        hmac: HmacView::keyed(keys.s2c_hmac@, Seq::<u8>::empty()),
                    },
                ),
                block_size: 16,
                mac_size: 32,
            },
            keys: None,
            ..self
        }
    }

    /// What the server's `Newkeys` does.  The new keys come into use in both
    /// directions, the sequence numbers go on, and the request for the
    /// authentication service goes out under the new keys.
    pub open spec fn after_newkeys(
        self,
        payload: Seq<u8>,
        out: Result<Seq<u8>, Error>,
        next: ConnectionView,
    ) -> bool {
        match Newkeys::spec_parse(payload) {
            Err(e) => out == Err::<Seq<u8>, Error>(e) && next == self,
            Ok(_) => match self.keys {
                None => out == Err::<Seq<u8>, Error>(Error::InvalidData) && next == self,
                Some(keys) => {
                    let keyed = self.keyed(keys);
                    match keyed.writer.send_message::<ServiceRequest>(
                        ServiceRequestView { service_name: "ssh-userauth"@ },
                    ) {
                        Err(e) => out == Err::<Seq<u8>, Error>(e) && next == keyed,
                        Ok((wire, writer)) => out == Ok::<Seq<u8>, Error>(wire) && next == (ConnectionView {
                            phase: Phase::ServiceRequest,
                            writer,
                            ..keyed
                        }),
                    }
                },
            },
        }
    }

    /// What the server's `ServiceAccept` does: the first authentication
    /// request goes out.
    pub open spec fn after_service_accept(
        self,
        payload: Seq<u8>,
        out: Result<Seq<u8>, Error>,
        next: ConnectionView,
    ) -> bool {
        match ServiceAccept::spec_parse(payload) {
            Err(e) => out == Err::<Seq<u8>, Error>(e) && next == self,
            Ok(_) => match self.writer.send_message::<UserauthRequest>(spec_first_request(self.auth)) {
                Err(e) => out == Err::<Seq<u8>, Error>(e) && next == self,
                Ok((wire, writer)) => out == Ok::<Seq<u8>, Error>(wire) && next == (ConnectionView {
                    phase: if self.auth is Password {
                        Phase::AuthResult
                    } else {
                        Phase::PublicKeyQuery
                    },
                    writer,
                    ..self
                }),
            },
        }
    }

    /// What the server's answer to the question about the public key does.
    /// A `UserauthFailure` is an authentication failure.  After a
    /// `UserauthPkOk` the request is signed and goes out with its signature.
    pub open spec fn after_pk_ok(self, payload: Seq<u8>, out: Result<Seq<u8>, Error>, next: ConnectionView) -> bool {
        if UserauthFailure::spec_parse(payload) is Ok {
            out == Err::<Seq<u8>, Error>(Error::AuthenticationFailure) && next == self
        } else {
            match UserauthPkOk::spec_parse(payload) {
                Err(e) => out == Err::<Seq<u8>, Error>(e) && next == self,
                Ok(_) => match self.auth {
                    AuthView::Password { .. } => out == Err::<Seq<u8>, Error>(Error::InvalidData) && next == self,
                    AuthView::Ed25519 { username, keypair } => match spec_signed_blob(
                        self.session_id,
                        username,
                        "ssh-connection"@,
                        spec_public_key_blob(keypair),
                    ) {
                        Err(e) => out == Err::<Seq<u8>, Error>(e) && next == self,
                        Ok(bytes) => match spec_ed25519_sign(keypair, bytes) {
                            None => out == Err::<Seq<u8>, Error>(Error::InvalidKeypair) && next == self,
                            Some(signature) => match self.writer.send_message::<UserauthRequest>(
                                spec_signed_request(username, keypair, signature@),
                            ) {
                                Err(e) => out == Err::<Seq<u8>, Error>(e) && next == self,
                                Ok((wire, writer)) => out == Ok::<Seq<u8>, Error>(wire) && next == (ConnectionView {
                                    phase: Phase::AuthResult,
                                    writer,
                                    ..self
                                }),
                            },
                        },
                    },
                },
            }
        }
    }

    /// What the server's verdict does.  A `UserauthFailure` is an
    /// authentication failure.  After a `UserauthSuccess` the connection is
    /// authenticated; nothing goes out.
    pub open spec fn after_verdict(self, payload: Seq<u8>, out: Result<Seq<u8>, Error>, next: ConnectionView) -> bool {
        if UserauthFailure::spec_parse(payload) is Ok {
            out == Err::<Seq<u8>, Error>(Error::AuthenticationFailure) && next == self
        } else {
            match UserauthSuccess::spec_parse(payload) {
                Err(e) => out == Err::<Seq<u8>, Error>(e) && next == self,
                Ok(_) => out == Ok::<Seq<u8>, Error>(Seq::<u8>::empty()) && next == (ConnectionView {
                    phase: Phase::Authenticated,
                    ..self
                }),
            }
        }
    }

    /// What the payload of a packet does, by the phase of the connection.
    /// Before the banners are exchanged and after authentication no payload
    /// is expected here.
    pub open spec fn after_payload(self, payload: Seq<u8>, out: Result<Seq<u8>, Error>, next: ConnectionView) -> bool {
        match self.phase {
            Phase::Banner | Phase::Authenticated => out == Err::<Seq<u8>, Error>(Error::InvalidData) && next
                == self,
            Phase::AlgorithmExchange => self.after_kexinit(payload, out, next),
            Phase::Ecdh => self.after_kexdh_reply(payload, out, next),
            Phase::NewKeys => self.after_newkeys(payload, out, next),
            Phase::ServiceRequest => self.after_service_accept(payload, out, next),
            Phase::PublicKeyQuery => self.after_pk_ok(payload, out, next),
            Phase::AuthResult => self.after_verdict(payload, out, next),
        }
    }
}

impl Connection {
    /// Whether the packet streams are well formed.
    pub open spec fn wf(&self) -> bool {
        self.reader.wf() && self.writer.wf()
    }

    /// A connection at its start, and the banner to send: the version of
    /// this client, a carriage return and a line feed.
    pub fn new(auth: Auth) -> (r: (Connection, Vec<u8>))
        ensures
            r.0@ == ConnectionView::initial(auth@),
            r.0.wf(),
            r.1@ == encode_utf8(VERSION_HEADER@) + seq![13u8, 10u8],
    {
        let connection = Connection {
            reader: PacketReader::new(),
            writer: PacketWriter::new(),
            next_client_channel: 0,
            phase: Phase::Banner,
            auth,
            peer_version: Vec::new(),
            client_kexinit_payload: Vec::new(),
            server_kexinit_payload: Vec::new(),
            client_ephemeral: [0u8; 32],
            session_id: [0u8; 32],
            keys: None,
            secret: None,
        };
        assert(connection.client_ephemeral@ =~= Seq::new(32, |i: int| 0u8));
        assert(connection.session_id@ =~= Seq::new(32, |i: int| 0u8));
        let mut banner: Vec<u8> = Vec::new();
        put_slice(&mut banner, VERSION_HEADER.as_bytes());
        put_u8(&mut banner, 13);
        put_u8(&mut banner, 10);
        assert(banner@ =~= encode_utf8(VERSION_HEADER@) + seq![13u8, 10u8]);
        (connection, banner)
    }

    /// Takes one line that the server sent before any packet, line end
    /// included.  Returns the bytes to send: none for a line that is dropped,
    /// this client's `Kexinit` after the server's banner.
    pub fn banner_line(&mut self, line: &[u8]) -> (r: Result<Vec<u8>, Error>)
        requires
            old(self).wf(),
        ensures
            final(self).wf(),
            old(self)@.after_line(line@, wire_of(r), final(self)@),
    {
        if self.phase != Phase::Banner {
            return Err(Error::InvalidData);
        }
        if !is_banner(line) {
            return Ok(Vec::new());
        }
        let n = line.len();
        if n < 2 || line[n - 2] != 13 || line[n - 1] != 10 {
            return Err(Error::InvalidData);
        }
        let mut payload: Vec<u8> = Vec::new();
        client_kexinit().dump(&mut payload)?;
        assert(payload@ =~= Kexinit::spec_dump(spec_client_kexinit()).unwrap());
        let wire = self.writer.send_raw(payload.as_slice())?;
        self.peer_version = slice_to_vec(slice_subrange(line, 0, n - 2));
        self.client_kexinit_payload = payload;
        self.phase = Phase::AlgorithmExchange;
        Ok(wire)
    }

    /// Takes the server's `Kexinit`.
    fn on_kexinit(&mut self, payload: &[u8]) -> (r: Result<Vec<u8>, Error>)
        requires
            old(self).wf(),
        ensures
            final(self).wf(),
            old(self)@.after_kexinit(payload@, wire_of(r), final(self)@),
    {
        let (server, _) = Kexinit::parse(payload)?;
        server.check_compat(&client_kexinit())?;
        let secret = x25519_ephemeral();
        let public = x25519_public(&secret);
        let ghost before = self@;
        let r = match self.writer.send(&KexdhInit { client_ephemeral_pubkey: slice_to_vec(public.as_slice()) }) {
            Err(e) => Err(e),
            Ok(wire) => {
                self.server_kexinit_payload = slice_to_vec(payload);
                self.client_ephemeral = public;
                self.secret = Some(secret);
                self.phase = Phase::Ecdh;
                Ok(wire)
            },
        };
        assert(public@.len() == 32 && before.after_public(payload@, public@, wire_of(r), self@));
        r
    }

    /// Finishes the key exchange for the server's reply and the secret
    /// shared with the server.
    pub fn finish_exchange(&mut self, reply: &KexdhReply, keys: &ReplyKeys, shared_secret: &[u8; 32]) -> (r: Result<
        Vec<u8>,
        Error,
    >)
        requires
            old(self).wf(),
            keys.host_key@ == reply@.server_public_host_key.content,
            keys.server_ephemeral@ == reply@.server_ephemeral_pubkey,
            keys.signature@ == reply@.exchange_hash_signature.content,
        ensures
            final(self).wf(),
            old(self)@.after_reply(reply@, shared_secret@, wire_of(r), final(self)@),
    {
        let h = exchange_hash(
            VERSION_HEADER.as_bytes(),
            self.peer_version.as_slice(),
            self.client_kexinit_payload.as_slice(),
            self.server_kexinit_payload.as_slice(),
            &reply.server_public_host_key,
            self.client_ephemeral.as_slice(),
            keys.server_ephemeral.as_slice(),
            shared_secret.as_slice(),
        )?;
        verify_host(&keys.host_key, &h, &keys.signature)?;
        let derived = KeyExchangeOutput::new(
            UnsignedMpInt(slice_to_vec(shared_secret.as_slice())),
            h.as_slice(),
            h.as_slice(),
        )?;
        let wire = self.writer.send(&Newkeys {  })?;
        self.session_id = h;
        self.keys = Some(derived);
        self.phase = Phase::NewKeys;
        Ok(wire)
    }

    /// Takes the server's `KexdhReply`.
    fn on_kexdh_reply(&mut self, payload: &[u8]) -> (r: Result<Vec<u8>, Error>)
        requires
            old(self).wf(),
        ensures
            final(self).wf(),
            old(self)@.after_kexdh_reply(payload@, wire_of(r), final(self)@),
    {
        let (reply, _) = KexdhReply::parse(payload)?;
        let keys = reply_keys(&reply)?;
        let secret = match self.secret.take() {
            Some(secret) => secret,
            None => return Err(Error::InvalidData),
        };
        let shared = x25519_shared(secret, &keys.server_ephemeral);
        let ghost used = self@;
        let r = self.finish_exchange(&reply, &keys, &shared);
        assert(shared@.len() == 32 && used.after_reply(reply@, shared@, wire_of(r), self@));
        r
    }

    /// Takes the server's `Newkeys`.
    fn on_newkeys(&mut self, payload: &[u8]) -> (r: Result<Vec<u8>, Error>)
        requires
            old(self).wf(),
        ensures
            final(self).wf(),
            old(self)@.after_newkeys(payload@, wire_of(r), final(self)@),
    {
        let _ = Newkeys::parse(payload)?;
        let keys = match self.keys.take() {
            Some(keys) => keys,
            None => return Err(Error::InvalidData),
        };
        self.writer.set_encryptor(Cipher::new(keys.c2s_key, keys.c2s_iv), Hmac::new(keys.c2s_hmac.as_slice()), 16);
        self.reader.set_decryptor(
            Cipher::new(keys.s2c_key, keys.s2c_iv),
            Hmac::new(keys.s2c_hmac.as_slice()),
            16,
            32,
        );
        let wire = self.writer.send(&ServiceRequest { service_name: String::from_str("ssh-userauth") })?;
        self.phase = Phase::ServiceRequest;
        Ok(wire)
    }

    /// The public key blob of a key pair.
    fn public_key_blob(keypair: &[u8; 64]) -> (blob: Blob)
        ensures
            blob@ == spec_public_key_blob(keypair@),
    {
        let blob = Blob {
            blob_len: ed25519_blob_len(32),
            header: String::from_str("ssh-ed25519"),
            content: slice_to_vec(slice_subrange(keypair.as_slice(), 32, 64)),
        };
        assert(blob.content@ =~= keypair@.skip(32));
        blob
    }

    /// Takes the server's `ServiceAccept`.
    fn on_service_accept(&mut self, payload: &[u8]) -> (r: Result<Vec<u8>, Error>)
        requires
            old(self).wf(),
        ensures
            final(self).wf(),
            old(self)@.after_service_accept(payload@, wire_of(r), final(self)@),
    {
        let _ = ServiceAccept::parse(payload)?;
        match &self.auth {
            Auth::Password { username, password } => {
                let request = UserauthRequest::Password {
                    username: username.clone(),
                    service_name: String::from_str("ssh-connection"),
                    password: password.clone(),
                    new_password: None,
                };
                let wire = self.writer.send(&request)?;
                self.phase = Phase::AuthResult;
                Ok(wire)
            },
            Auth::Ed25519 { username, keypair } => {
                let request = UserauthRequest::PublicKey {
                    username: username.clone(),
                    service_name: String::from_str("ssh-connection"),
                    algorithm: String::from_str("ssh-ed25519"),
                    blob: Self::public_key_blob(keypair),
                    signature: None,
                };
                let wire = self.writer.send(&request)?;
                self.phase = Phase::PublicKeyQuery;
                Ok(wire)
            },
        }
    }

    /// Takes the server's answer to the question about the public key.
    fn on_pk_ok(&mut self, payload: &[u8]) -> (r: Result<Vec<u8>, Error>)
        requires
            old(self).wf(),
        ensures
            final(self).wf(),
            old(self)@.after_pk_ok(payload@, wire_of(r), final(self)@),
    {
        if UserauthFailure::parse(payload).is_ok() {
            return Err(Error::AuthenticationFailure);
        }
        let _ = UserauthPkOk::parse(payload)?;
        match &self.auth {
            Auth::Password { .. } => Err(Error::InvalidData),
            Auth::Ed25519 { username, keypair } => {
                let blob = Self::public_key_blob(keypair);
                let signature = sign_userauth(
                    keypair,
                    self.session_id.as_slice(),
                    username.as_str(),
                    "ssh-connection",
                    &blob,
                )?;
                let request = UserauthRequest::PublicKey {
                    username: username.clone(),
                    service_name: String::from_str("ssh-connection"),
                    algorithm: String::from_str("ssh-ed25519"),
                    blob,
                    signature: Some(
                        Blob {
                            blob_len: ed25519_blob_len(64),
                            header: String::from_str("ssh-ed25519"),
                            content: slice_to_vec(signature.as_slice()),
                        },
                    ),
                };
                let wire = self.writer.send(&request)?;
                self.phase = Phase::AuthResult;
                Ok(wire)
            },
        }
    }

    /// Takes the server's verdict on the credentials.
    fn on_verdict(&mut self, payload: &[u8]) -> (r: Result<Vec<u8>, Error>)
        requires
            old(self).wf(),
        ensures
            final(self).wf(),
            old(self)@.after_verdict(payload@, wire_of(r), final(self)@),
    {
        if UserauthFailure::parse(payload).is_ok() {
            return Err(Error::AuthenticationFailure);
        }
        let _ = UserauthSuccess::parse(payload)?;
        self.phase = Phase::Authenticated;
        Ok(Vec::new())
    }

    /// Takes the payload of one packet.  Returns the bytes to send in
    /// answer.
    pub fn handle(&mut self, payload: &[u8]) -> (r: Result<Vec<u8>, Error>)
        requires
            old(self).wf(),
        ensures
            final(self).wf(),
            old(self)@.after_payload(payload@, wire_of(r), final(self)@),
    {
        match self.phase {
            Phase::Banner => Err(Error::InvalidData),
            Phase::Authenticated => Err(Error::InvalidData),
            Phase::AlgorithmExchange => self.on_kexinit(payload),
            Phase::Ecdh => self.on_kexdh_reply(payload),
            Phase::NewKeys => self.on_newkeys(payload),
            Phase::ServiceRequest => self.on_service_accept(payload),
            Phase::PublicKeyQuery => self.on_pk_ok(payload),
            Phase::AuthResult => self.on_verdict(payload),
        }
    }

    /// Takes one packet from the start of `input` and handles its payload.
    /// Returns the bytes to send in answer and the number of bytes that the
    /// packet took.
    ///
    /// Fails with `Truncated`, and changes nothing, where the packet is not
    /// all there yet.  A packet that the reader filters is taken and nothing
    /// else happens.
    pub fn receive(&mut self, input: &[u8]) -> (r: Result<(Vec<u8>, usize), Error>)
        requires
            old(self).wf(),
        ensures
            final(self).wf(),
            match old(self)@.reader.recv(input@) {
                Err(e) => r matches Err(f) && f == e && final(self)@ == old(self)@,
                Ok((None, n, reader)) => r matches Ok((wire, m)) && wire@.len() == 0 && m == n && final(self)@ == (
                ConnectionView { reader, ..old(self)@ }),
                Ok((Some(payload), n, reader)) => {
                    let taken = ConnectionView { reader, ..old(self)@ };
                    match r {
                        Ok((wire, m)) => m == n && taken.after_payload(
                            payload,
                            Ok::<Seq<u8>, Error>(wire@),
                            final(self)@,
                        ),
                        Err(e) => taken.after_payload(payload, Err::<Seq<u8>, Error>(e), final(self)@),
                    }
                },
            },
    {
        let (payload, n) = self.reader.recv_raw(input)?;
        match payload {
            None => Ok((Vec::new(), n)),
            Some(payload) => {
                let wire = self.handle(payload.as_slice())?;
                Ok((wire, n))
            },
        }
    }

    /// The number for a new channel.  Fails with `InvalidData` once the
    /// numbers are used up.
    pub fn next_channel(&mut self) -> (r: Result<u32, Error>)
        ensures
            old(self)@.next_client_channel < u32::MAX ==> r == Ok::<u32, Error>(old(self)@.next_client_channel)
                && final(self)@ == (ConnectionView {
                next_client_channel: (old(self)@.next_client_channel + 1) as u32,
                ..old(self)@
            }),
            old(self)@.next_client_channel == u32::MAX ==> r == Err::<u32, Error>(Error::InvalidData)
                && final(self)@ == old(self)@,
    {
        if self.next_client_channel == u32::MAX {
            return Err(Error::InvalidData);
        }
        let channel = self.next_client_channel;
        self.next_client_channel = channel + 1;
        Ok(channel)
    }
}

/// Whatever the server's `UserauthFailure` holds, while the connection waits
/// for an answer to an authentication request it means that authentication
/// failed, and the connection stays as it is.
pub proof fn lemma_failure_rejects(
    connection: ConnectionView,
    failure: UserauthFailureView,
    out: Result<Seq<u8>, Error>,
    next: ConnectionView,
)
    requires
        connection.phase == Phase::AuthResult || connection.phase == Phase::PublicKeyQuery,
        UserauthFailure::spec_dump(failure) matches Ok(payload) && connection.after_payload(payload, out, next),
    ensures
        out == Err::<Seq<u8>, Error>(Error::AuthenticationFailure),
        next == connection,
{
    let payload = UserauthFailure::spec_dump(failure).unwrap();
    UserauthFailure::lemma_parse_dump(failure, Seq::<u8>::empty());
    assert(payload + Seq::<u8>::empty() =~= payload);
}

} // verus!
