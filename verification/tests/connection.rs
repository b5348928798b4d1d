use tinyssh::channelrequest::ChannelRequest;
use tinyssh::connection::{has_prefix, is_banner, Auth, Connection, Creds, Phase, VERSION_HEADER};
use tinyssh::error::Error;
use tinyssh::kex::{exchange_hash, KeyExchangeOutput};
use tinyssh::cipher::Cipher;
use tinyssh::hmac::Hmac;
use tinyssh::messages::{
    Blob, ChannelClose, ChannelData, ChannelEof, ChannelExtendedData, ChannelOpenConfirmation, ChannelSuccess,
    KexdhInit, KexdhReply,
    Kexinit, Message, MessageType, Newkeys, ServiceAccept, ServiceRequest, UserauthFailure, UserauthPkOk,
    UserauthSuccess,
};
use tinyssh::mpint::UnsignedMpInt;
use tinyssh::packets::{PacketReader, PacketWriter};
use tinyssh::parsedump::ParseDump;
use tinyssh::run::{request_exec, Run, RunEvent, RunResult};
use tinyssh::userauth::{signed_blob, UserauthRequest};

const KEYPAIR: [u8; 64] = [
    0, 1, 2, 3, 4, 5, 6, 7, 8, 9, 10, 11, 12, 13, 14, 15, 16, 17, 18, 19, 20, 21, 22, 23, 24, 25, 26, 27, 28, 29, 30,
    31, 0x03, 0xa1, 0x07, 0xbf, 0xf3, 0xce, 0x10, 0xbe, 0x1d, 0x70, 0xdd, 0x18, 0xe7, 0x4b, 0xc0, 0x99, 0x67, 0xe4,
    0xd6, 0x30, 0x9b, 0xa5, 0x0d, 0x5f, 0x1d, 0xdc, 0x86, 0x64, 0x12, 0x55, 0x31, 0xb8,
];

const SERVER_BANNER: &[u8] = b"SSH-2.0-testd_1.0";

/// What the test server does wrong, if anything.
#[derive(Clone, Copy, PartialEq)]
enum Fault {
    No,
    /// Signs with another key than the one it shows.
    BogusHostKey,
    /// Offers another cipher.
    OtherCipher,
    /// Rejects the credentials.
    Reject,
    /// Sends `Newkeys` where the reply to the key exchange is due.
    EarlyNewkeys,
}

/// A server in memory, written against the same packet layer.
struct Server {
    reader: PacketReader,
    writer: PacketWriter,
    fault: Fault,
    host: ed25519_dalek::Keypair,
    client_banner: Vec<u8>,
    client_kexinit: Vec<u8>,
    server_kexinit: Vec<u8>,
    session_id: [u8; 32],
    keys: Option<KeyExchangeOutput>,
    /// The authentication requests that arrived.
    requests: Vec<UserauthRequest>,
    /// What the command writes to its standard output.
    output: Vec<u8>,
    /// What the command writes to its standard error.
    errors: Vec<u8>,
    exit_status: u32,
    /// The commands that were run.
    commands: Vec<String>,
}

fn host_key(seed: u8) -> ed25519_dalek::Keypair {
    let secret = ed25519_dalek::SecretKey::from_bytes(&[seed; 32]).unwrap();
    let public = ed25519_dalek::PublicKey::from(&secret);
    ed25519_dalek::Keypair { secret, public }
}

fn ed25519_blob(content: &[u8]) -> Blob {
    Blob { blob_len: 19 + content.len() as u32, header: "ssh-ed25519".to_string(), content: content.to_vec() }
}

impl Server {
    fn new(fault: Fault) -> Server {
        Server {
            reader: PacketReader::new(),
            writer: PacketWriter::new(),
            fault,
            host: host_key(42),
            client_banner: Vec::new(),
            client_kexinit: Vec::new(),
            server_kexinit: Vec::new(),
            session_id: [0; 32],
            keys: None,
            requests: Vec::new(),
            output: b"hello\n".to_vec(),
            errors: Vec::new(),
            exit_status: 0,
            commands: Vec::new(),
        }
    }

    fn kexinit(&self) -> Kexinit {
        Kexinit {
            cookie: [0x5c; 16],
            kex_algorithms: "curve25519-sha256,curve25519-sha256@libssh.org".to_string(),
            server_host_key_algorithms: "rsa-sha2-512,ssh-ed25519".to_string(),
            encryption_algorithms_client_to_server: if self.fault == Fault::OtherCipher {
                "aes128-ctr".to_string()
            } else {
                "aes128-ctr,aes256-ctr".to_string()
            },
            encryption_algorithms_server_to_client: "aes128-ctr,aes256-ctr".to_string(),
            mac_algorithms_client_to_server: "hmac-sha2-256".to_string(),
            mac_algorithms_server_to_client: "hmac-sha2-256".to_string(),
            compression_algorithms_client_to_server: "none".to_string(),
            compression_algorithms_server_to_client: "none".to_string(),
            languages_client_to_server: String::new(),
            languages_server_to_client: String::new(),
            first_kex_packet_follows: false,
            nop: 0,
        }
    }

    /// Takes the client's banner line and answers with a greeting, the
    /// server's banner, an ignored packet and the server's `Kexinit`.
    fn greet(&mut self, line: &[u8]) -> Vec<u8> {
        assert!(line.ends_with(b"\r\n"));
        self.client_banner = line[..line.len() - 2].to_vec();
        let mut out = Vec::new();
        out.extend_from_slice(SERVER_BANNER);
        out.extend_from_slice(b"\r\n");
        out.extend(self.writer.send_raw(&[2, 0, 0, 0, 3, 1, 2, 3]).unwrap());
        let mut payload = Vec::new();
        self.kexinit().dump(&mut payload).unwrap();
        self.server_kexinit = payload.clone();
        out.extend(self.writer.send_raw(&payload).unwrap());
        out
    }

    /// Takes all the packets of `input` and returns the answers.
    fn take(&mut self, input: &[u8]) -> Vec<u8> {
        let mut out = Vec::new();
        let mut at = 0;
        while at < input.len() {
            let (payload, n) = self.reader.recv_raw(&input[at..]).unwrap();
            at += n;
            if let Some(payload) = payload {
                out.extend(self.answer(&payload));
            }
        }
        out
    }

    fn answer(&mut self, payload: &[u8]) -> Vec<u8> {
        let (message, _) = Message::parse(payload).unwrap();
        match message {
            Message::Kexinit(_) => {
                self.client_kexinit = payload.to_vec();
                Vec::new()
            },
            Message::KexdhInit(KexdhInit { client_ephemeral_pubkey }) => {
                if self.fault == Fault::EarlyNewkeys {
                    return self.writer.send(&Newkeys {}).unwrap();
                }
                let mut client_public = [0u8; 32];
                client_public.copy_from_slice(&client_ephemeral_pubkey);
                let secret = x25519_dalek::EphemeralSecret::new(rand_core::OsRng);
                let public = x25519_dalek::PublicKey::from(&secret).to_bytes();
                let shared = secret.diffie_hellman(&x25519_dalek::PublicKey::from(client_public)).to_bytes();
                let host_blob = ed25519_blob(&self.host.public.to_bytes());
                let h = exchange_hash(
                    &self.client_banner,
                    SERVER_BANNER,
                    &self.client_kexinit,
                    &self.server_kexinit,
                    &host_blob,
                    &client_public,
                    &public,
                    &shared,
                )
                .unwrap();
                let signer = if self.fault == Fault::BogusHostKey { host_key(43) } else { host_key(42) };
                let signature = ed25519_dalek::Signer::sign(&signer, &h).to_bytes();
                self.session_id = h;
                self.keys = Some(KeyExchangeOutput::new(UnsignedMpInt(shared.to_vec()), &h, &h).unwrap());
                let mut out = self
                    .writer
                    .send(&KexdhReply {
                        server_public_host_key: host_blob,
                        server_ephemeral_pubkey: public.to_vec(),
                        exchange_hash_signature: ed25519_blob(&signature),
                    })
                    .unwrap();
                out.extend(self.writer.send(&Newkeys {}).unwrap());
                let keys = self.keys.as_ref().unwrap();
                self.writer.set_encryptor(Cipher::new(keys.s2c_key, keys.s2c_iv), Hmac::new(&keys.s2c_hmac), 16);
                out
            },
            Message::Newkeys(_) => {
                let keys = self.keys.as_ref().unwrap();
                self.reader.set_decryptor(Cipher::new(keys.c2s_key, keys.c2s_iv), Hmac::new(&keys.c2s_hmac), 16, 32);
                Vec::new()
            },
            Message::ServiceRequest(ServiceRequest { service_name }) => {
                assert_eq!(service_name, "ssh-userauth");
                // a global request that wants no reply comes first, and is not to be seen
                let mut out = self
                    .writer
                    .send_raw(&[&[80u8, 0, 0, 0, 4][..], b"noop", &[0]].concat())
                    .unwrap();
                out.extend(self.writer.send(&ServiceAccept { service_name }).unwrap());
                out
            },
            Message::UserauthRequest(request) => {
                self.requests.push(request.clone());
                if self.fault == Fault::Reject {
                    return self
                        .writer
                        .send(&UserauthFailure { allowed_auth: "publickey".to_string(), partial_success: false })
                        .unwrap();
                }
                match request {
                    UserauthRequest::Password { .. } => self.writer.send(&UserauthSuccess {}).unwrap(),
                    UserauthRequest::PublicKey { algorithm, blob, signature: None, .. } => {
                        self.writer.send(&UserauthPkOk { algorithm, blob }).unwrap()
                    },
                    UserauthRequest::PublicKey { username, service_name, blob, signature: Some(signature), .. } => {
                        let signed = signed_blob(&self.session_id, &username, &service_name, &blob).unwrap();
                        let key = ed25519_dalek::PublicKey::from_bytes(&blob.content).unwrap();
                        let parsed = ed25519_dalek::Signature::from_bytes(&signature.content).unwrap();
                        assert_eq!(signature.header, "ssh-ed25519");
                        assert_eq!(signature.blob_len, 83);
                        assert_eq!(blob.blob_len, 51);
                        if ed25519_dalek::Verifier::verify(&key, &signed, &parsed).is_ok() {
                            self.writer.send(&UserauthSuccess {}).unwrap()
                        } else {
                            self.writer
                                .send(&UserauthFailure { allowed_auth: String::new(), partial_success: false })
                                .unwrap()
                        }
                    },
                }
            },
            Message::ChannelOpen(open) => {
                assert_eq!(open.channel_type, "session");
                self.writer
                    .send(&ChannelOpenConfirmation {
                        client_channel: open.client_channel,
                        server_channel: 100 + open.client_channel,
                        server_initial_window_size: 0x20_0000,
                        server_max_packet_size: 0x8000,
                    })
                    .unwrap()
            },
            Message::ChannelRequest(ChannelRequest::EnvironmentVariable { want_reply, .. }) => {
                assert!(!want_reply);
                Vec::new()
            },
            Message::ChannelRequest(ChannelRequest::Exec { recipient_channel, want_reply, command }) => {
                assert!(want_reply);
                self.commands.push(command);
                let client = recipient_channel - 100;
                let mut out = self.writer.send(&ChannelSuccess { recipient_channel: client }).unwrap();
                let output = self.output.clone();
                for chunk in output.chunks(0x4000) {
                    out.extend(
                        self.writer.send(&ChannelData { recipient_channel: client, data: chunk.to_vec() }).unwrap(),
                    );
                }
                if !self.errors.is_empty() {
                    out.extend(
                        self.writer
                            .send(&ChannelExtendedData {
                                recipient_channel: client,
                                data_type: 1,
                                data: self.errors.clone(),
                            })
                            .unwrap(),
                    );
                }
                out.extend(self.writer.send(&ChannelEof { recipient_channel: client }).unwrap());
                out.extend(
                    self.writer
                        .send(&ChannelRequest::ExitStatus { recipient_channel: client, exit_status: self.exit_status })
                        .unwrap(),
                );
                out.extend(self.writer.send(&ChannelClose { recipient_channel: client }).unwrap());
                out
            },
            Message::ChannelClose(_) => Vec::new(),
            other => panic!("the server did not expect {:?}", other),
        }
    }
}

/// Cuts the first line, line feed included, off `input`.
fn line_of(input: &[u8]) -> &[u8] {
    let end = input.iter().position(|b| *b == b'\n').unwrap();
    &input[..end + 1]
}

/// Runs the client against the server until the client is authenticated or
/// fails.
fn handshake(auth: Auth, server: &mut Server) -> Result<Connection, Error> {
    let (mut client, banner) = Connection::new(auth);
    assert_eq!(banner, b"SSH-2.0-tinyssh+1.0\r\n");
    let mut incoming = b"welcome to the test server\r\n".to_vec();
    incoming.extend(server.greet(&banner));
    let mut at = 0;
    let mut outgoing = Vec::new();
    while client.phase == Phase::Banner {
        let line = line_of(&incoming[at..]);
        at += line.len();
        outgoing.extend(client.banner_line(line)?);
    }
    let mut rounds = 0;
    while client.phase != Phase::Authenticated {
        rounds += 1;
        assert!(rounds < 100);
        if at == incoming.len() {
            let answer = server.take(&outgoing);
            outgoing.clear();
            assert!(!answer.is_empty());
            incoming.extend(answer);
        }
        let (wire, n) = client.receive(&incoming[at..])?;
        at += n;
        outgoing.extend(wire);
    }
    assert!(outgoing.is_empty());
    assert_eq!(at, incoming.len());
    Ok(client)
}

fn password(username: &str, password: &str) -> Auth {
    Auth::Password { username: username.to_string(), password: password.to_string() }
}

fn key_pair(username: &str) -> Auth {
    Auth::Ed25519 { username: username.to_string(), keypair: KEYPAIR }
}

/// Runs a command and collects what it writes.
fn run(client: &mut Connection, server: &mut Server, command: &str) -> (Vec<u8>, Option<u32>, Vec<RunEvent>) {
    let (channel, open) = client.run().unwrap();
    let incoming = server.take(&open);
    let (confirmation, n) = client.reader.recv::<ChannelOpenConfirmation>(&incoming).unwrap();
    let confirmation = confirmation.unwrap();
    assert_eq!(n, incoming.len());
    let request = request_exec(&mut client.writer, confirmation.server_channel, command, &[]).unwrap();
    let incoming = server.take(&request);
    let (reply, mut at) = client.reader.recv::<Message>(&incoming).unwrap();
    let mut run = match Run::start(&reply.unwrap(), channel, &confirmation).unwrap() {
        RunResult::Accepted(run) => run,
        RunResult::Refused => panic!("refused"),
    };
    let mut stdout = Vec::new();
    let mut events = Vec::new();
    let mut outgoing = Vec::new();
    loop {
        let message = if at < incoming.len() {
            let (message, n) = client.reader.recv::<Message>(&incoming[at..]).unwrap();
            at += n;
            message
        } else {
            None
        };
        let (event, wire) = run.poll(message, &mut client.writer).unwrap();
        outgoing.extend(wire);
        events.push(event.clone());
        match event {
            RunEvent::Data(data) => stdout.extend(data),
            RunEvent::Stopped(status) => {
                server.take(&outgoing);
                assert!(run.is_closed());
                return (stdout, status, events);
            },
            _ => {},
        }
    }
}

#[test]
fn connection() {
    let creds = Creds::Password { username: "".to_string(), password: "".to_string() };
    let auth = Auth::from_creds(creds).unwrap();
    let mut server = Server::new(Fault::No);
    if let Err(error) = handshake(auth, &mut server) {
        println!("{:#?}", error);
        panic!("the connection failed");
    }
}

#[test]
fn password_authentication() {
    let mut server = Server::new(Fault::No);
    let client = handshake(password("alice", "secret"), &mut server).unwrap();
    assert_eq!(client.phase, Phase::Authenticated);
    assert_eq!(client.peer_version, SERVER_BANNER);
    assert_eq!(client.session_id, server.session_id);
    assert_eq!(
        server.requests,
        vec![UserauthRequest::Password {
            username: "alice".to_string(),
            service_name: "ssh-connection".to_string(),
            password: "secret".to_string(),
            new_password: None,
        }]
    );
}

#[test]
fn public_key_authentication_takes_two_requests() {
    let mut server = Server::new(Fault::No);
    let client = handshake(key_pair("alice"), &mut server).unwrap();
    assert_eq!(client.phase, Phase::Authenticated);
    assert_eq!(server.requests.len(), 2);
    let blob = ed25519_blob(&KEYPAIR[32..]);
    assert_eq!(
        server.requests[0],
        UserauthRequest::PublicKey {
            username: "alice".to_string(),
            service_name: "ssh-connection".to_string(),
            algorithm: "ssh-ed25519".to_string(),
            blob: blob.clone(),
            signature: None,
        }
    );
    match &server.requests[1] {
        UserauthRequest::PublicKey { username, blob: sent, signature: Some(signature), .. } => {
            assert_eq!(username, "alice");
            assert_eq!(sent, &blob);
            assert_eq!(signature.content.len(), 64);
        },
        other => panic!("no signature: {:?}", other),
    }
}

#[test]
fn echo_hello() {
    let mut server = Server::new(Fault::No);
    let mut client = handshake(key_pair("alice"), &mut server).unwrap();
    let (stdout, status, events) = run(&mut client, &mut server, "echo hello");
    assert_eq!(stdout, b"hello\n");
    assert_eq!(status, Some(0));
    assert_eq!(server.commands, vec!["echo hello".to_string()]);
    assert_eq!(
        events,
        vec![
            RunEvent::Data(b"hello\n".to_vec()),
            RunEvent::Nothing,
            RunEvent::Nothing,
            RunEvent::Stopped(Some(0)),
        ]
    );
}

#[test]
fn standard_error_is_kept_apart() {
    let mut server = Server::new(Fault::No);
    server.output = Vec::new();
    server.errors = b"err\n".to_vec();
    let mut client = handshake(key_pair("alice"), &mut server).unwrap();
    let (stdout, status, events) = run(&mut client, &mut server, "sh -c 'echo err 1>&2'");
    assert_eq!(stdout, b"");
    assert_eq!(status, Some(0));
    let stderr: Vec<u8> = events
        .iter()
        .flat_map(|event| match event {
            RunEvent::ExtDataStderr(data) => data.clone(),
            _ => Vec::new(),
        })
        .collect();
    assert_eq!(stderr, b"err\n");
    assert!(!events.iter().any(|event| matches!(event, RunEvent::Data(_))));
}

#[test]
fn a_failing_command_reports_its_status() {
    let mut server = Server::new(Fault::No);
    server.output = Vec::new();
    server.exit_status = 1;
    let mut client = handshake(password("alice", "secret"), &mut server).unwrap();
    let (stdout, status, _) = run(&mut client, &mut server, "false");
    assert_eq!(stdout, b"");
    assert_eq!(status, Some(1));
}

#[test]
fn a_mebibyte_of_output() {
    let mut server = Server::new(Fault::No);
    server.output = vec![b'a'; 1024 * 1024];
    let mut client = handshake(key_pair("alice"), &mut server).unwrap();
    let (stdout, status, _) = run(&mut client, &mut server, "printf %s aaaa");
    assert_eq!(stdout.len(), 1024 * 1024);
    assert!(stdout.iter().all(|b| *b == b'a'));
    assert_eq!(status, Some(0));
    // a second command on the same connection gets the next channel
    server.output = b"again\n".to_vec();
    let (stdout, _, _) = run(&mut client, &mut server, "echo again");
    assert_eq!(stdout, b"again\n");
    assert_eq!(client.next_client_channel, 2);
}

#[test]
fn a_bogus_host_key_ends_the_connection_before_authentication() {
    let mut server = Server::new(Fault::BogusHostKey);
    let result = handshake(password("alice", "secret"), &mut server);
    assert_eq!(result.err(), Some(Error::HostKeyNotVerifiable));
    assert!(server.requests.is_empty());
}

#[test]
fn a_server_without_the_cipher_is_no_match() {
    let mut server = Server::new(Fault::OtherCipher);
    let result = handshake(password("alice", "secret"), &mut server);
    assert_eq!(result.err(), Some(Error::NoAlgorithmOverlap));
}

#[test]
fn a_rejection_is_an_authentication_failure() {
    let mut server = Server::new(Fault::Reject);
    assert_eq!(handshake(password("alice", "wrong"), &mut server).err(), Some(Error::AuthenticationFailure));
    let mut server = Server::new(Fault::Reject);
    assert_eq!(handshake(key_pair("alice"), &mut server).err(), Some(Error::AuthenticationFailure));
    // the key was only asked about, never signed with
    assert_eq!(server.requests.len(), 1);
}

#[test]
fn a_message_out_of_turn_is_unexpected() {
    let mut server = Server::new(Fault::EarlyNewkeys);
    assert_eq!(
        handshake(password("alice", "secret"), &mut server).err(),
        Some(Error::UnexpectedMessageType(MessageType::Newkeys))
    );
}

#[test]
fn lines_before_the_banner_are_dropped() {
    let (mut client, _) = Connection::new(password("a", "b"));
    assert_eq!(client.banner_line(b"hello\r\n"), Ok(vec![]));
    assert_eq!(client.banner_line(b"\n"), Ok(vec![]));
    assert_eq!(client.banner_line(b"SSH-1.5-old\r\n"), Ok(vec![]));
    assert_eq!(client.banner_line(b"ssh-2.0-lower\r\n"), Ok(vec![]));
    assert_eq!(client.phase, Phase::Banner);
    // a banner has to end with a carriage return and a line feed
    assert_eq!(client.banner_line(b"SSH-2.0-x\n"), Err(Error::InvalidData));
    assert_eq!(client.banner_line(b"SSH-2.0-x"), Err(Error::InvalidData));
    assert_eq!(client.phase, Phase::Banner);
    let wire = client.banner_line(b"SSH-1.99-both\r\n").unwrap();
    assert_eq!(client.phase, Phase::AlgorithmExchange);
    assert_eq!(client.peer_version, b"SSH-1.99-both");
    // what goes out is the client's Kexinit, kept for the exchange hash
    let mut reader = PacketReader::new();
    let (payload, n) = reader.recv_raw(&wire).unwrap();
    assert_eq!(n, wire.len());
    assert_eq!(payload.as_ref(), Some(&client.client_kexinit_payload));
    assert_eq!(Kexinit::parse(&payload.unwrap()).unwrap().0, tinyssh::connection::client_kexinit());
    // a second banner is out of place
    assert_eq!(client.banner_line(b"SSH-2.0-again\r\n"), Err(Error::InvalidData));
}

#[test]
fn banner_prefixes() {
    assert!(is_banner(b"SSH-2.0-OpenSSH_9.6\r\n"));
    assert!(is_banner(b"SSH-1.99-x"));
    assert!(is_banner(b"SSH-2.0-"));
    assert!(!is_banner(b"SSH-2.0"));
    assert!(!is_banner(b"SSH-1.5-x"));
    assert!(!is_banner(b" SSH-2.0-x"));
    assert!(!is_banner(b""));
    assert!(has_prefix(b"abc", b"ab"));
    assert!(has_prefix(b"abc", b""));
    assert!(has_prefix(b"abc", b"abc"));
    assert!(!has_prefix(b"abc", b"abcd"));
    assert!(!has_prefix(b"abc", b"b"));
    assert_eq!(VERSION_HEADER, "SSH-2.0-tinyssh+1.0");
}

#[test]
fn no_payload_is_expected_before_the_banner_or_after_authentication() {
    let (mut client, _) = Connection::new(password("a", "b"));
    assert_eq!(client.handle(&[21]), Err(Error::InvalidData));
    let mut server = Server::new(Fault::No);
    let mut client = handshake(password("alice", "secret"), &mut server).unwrap();
    assert_eq!(client.handle(&[21]), Err(Error::InvalidData));
}

#[test]
fn an_incomplete_packet_changes_nothing() {
    let (mut client, banner) = Connection::new(password("a", "b"));
    let mut server = Server::new(Fault::No);
    let greeting = server.greet(&banner);
    let line = line_of(&greeting);
    client.banner_line(line).unwrap();
    let packets = &greeting[line.len()..];
    assert_eq!(client.receive(&packets[..3]).err(), Some(Error::Truncated));
    assert_eq!(client.receive(&packets[..10]).err(), Some(Error::Truncated));
    assert_eq!(client.phase, Phase::AlgorithmExchange);
    // the ignored packet is taken and nothing happens
    let (wire, n) = client.receive(packets).unwrap();
    assert!(wire.is_empty());
    assert_eq!(client.phase, Phase::AlgorithmExchange);
    // then the server's Kexinit: the client's ephemeral key goes out
    let (wire, m) = client.receive(&packets[n..]).unwrap();
    assert_eq!(n + m, packets.len());
    assert_eq!(client.phase, Phase::Ecdh);
    let mut reader = PacketReader::new();
    reader.recv_raw(&client_kexinit_wire()).unwrap();
    let (init, _) = reader.recv::<KexdhInit>(&wire).unwrap();
    assert_eq!(init.unwrap().client_ephemeral_pubkey, client.client_ephemeral.to_vec());
}

/// The first packet of any client: its `Kexinit`.
fn client_kexinit_wire() -> Vec<u8> {
    let (mut client, _) = Connection::new(password("a", "b"));
    client.banner_line(b"SSH-2.0-x\r\n").unwrap()
}

#[test]
fn every_connection_has_a_new_ephemeral_key() {
    let mut first = Server::new(Fault::No);
    let mut second = Server::new(Fault::No);
    let a = handshake(password("alice", "secret"), &mut first).unwrap();
    let b = handshake(password("alice", "secret"), &mut second).unwrap();
    assert!(a.client_ephemeral != b.client_ephemeral);
    assert!(a.session_id != b.session_id);
}

#[test]
fn credentials_with_a_key_of_another_length_are_rejected() {
    let short = Creds::PrivateKey { username: "alice".to_string(), priv_key: vec![1; 63] };
    assert!(matches!(Auth::from_creds(short), Err(Error::InvalidKeypair)));
    let good = Creds::PrivateKey { username: "alice".to_string(), priv_key: KEYPAIR.to_vec() };
    match Auth::from_creds(good) {
        Ok(Auth::Ed25519 { username, keypair }) => {
            assert_eq!(username, "alice");
            assert_eq!(keypair, KEYPAIR);
        },
        _ => panic!("not a key pair"),
    }
}

#[test]
fn a_channel_that_cannot_be_numbered_is_not_opened() {
    let (mut client, _) = Connection::new(password("a", "b"));
    let (channel, wire) = client.run().unwrap();
    assert_eq!(channel, 0);
    assert_eq!(client.next_client_channel, 1);
    let mut reader = PacketReader::new();
    let (open, _) = reader.recv::<Message>(&wire).unwrap();
    match open.unwrap() {
        Message::ChannelOpen(open) => assert_eq!(open.client_channel, 0),
        other => panic!("not an open: {:?}", other),
    }
    client.next_client_channel = u32::MAX;
    assert_eq!(client.run(), Err(Error::InvalidData));
    // nothing was sent: the next packet still has the next sequence number
    let next = client.writer.send_raw(&[21]).unwrap();
    assert!(reader.recv_raw(&next).is_ok());
}

#[test]
fn channel_numbers_count_up() {
    let (mut client, _) = Connection::new(password("a", "b"));
    assert_eq!(client.next_channel(), Ok(0));
    assert_eq!(client.next_channel(), Ok(1));
    client.next_client_channel = u32::MAX;
    assert_eq!(client.next_channel(), Err(Error::InvalidData));
    assert_eq!(client.next_client_channel, u32::MAX);
}
