use tinyssh::channelrequest::ChannelRequest;
use tinyssh::error::Error;
use tinyssh::messages::{
    expect_tag, Blob, ChannelClose, ChannelData, ChannelEof, ChannelExtendedData, ChannelFailure, ChannelOpen,
    ChannelOpenConfirmation, ChannelOpenFailure, ChannelSuccess, ChannelWindowAdjust, Disconnect,
    DisconnectReasonCode, ExchangeHash, GlobalRequest, KexdhInit, KexdhReply, Kexinit, Message, MessageType,
    Newkeys, ServiceAccept, ServiceRequest, Unimplemented, UserauthFailure, UserauthPkOk, UserauthSuccess,
};
use tinyssh::mpint::UnsignedMpInt;
use tinyssh::parsedump::ParseDump;
use tinyssh::userauth::UserauthRequest;

fn dump_of<T: ParseDump>(v: &T) -> Vec<u8> {
    let mut out = Vec::new();
    v.dump(&mut out).unwrap();
    out
}

/// Parsing the dump gives the record back and takes all of the dump, also
/// when more bytes follow.
fn round_trip<T: ParseDump + PartialEq + core::fmt::Debug>(v: T) {
    let mut bytes = dump_of(&v);
    let n = bytes.len();
    assert_eq!(T::parse(&bytes), Ok((v, n)));
    bytes.extend_from_slice(&[0xde, 0xad]);
    let (_, taken) = T::parse(&bytes).unwrap();
    assert_eq!(taken, n);
    if n > 0 {
        assert!(T::parse(&bytes[..n - 1]).is_err());
    }
}

fn blob(content: &[u8]) -> Blob {
    Blob { blob_len: 19 + content.len() as u32, header: "ssh-ed25519".to_string(), content: content.to_vec() }
}

fn kexinit() -> Kexinit {
    Kexinit {
        cookie: [7; 16],
        kex_algorithms: "curve25519-sha256,diffie-hellman-group14-sha256".to_string(),
        server_host_key_algorithms: "ssh-ed25519".to_string(),
        encryption_algorithms_client_to_server: "aes256-ctr".to_string(),
        encryption_algorithms_server_to_client: "aes256-ctr,aes128-ctr".to_string(),
        mac_algorithms_client_to_server: "hmac-sha2-256".to_string(),
        mac_algorithms_server_to_client: "hmac-sha2-256".to_string(),
        compression_algorithms_client_to_server: "none".to_string(),
        compression_algorithms_server_to_client: "none,zlib".to_string(),
        languages_client_to_server: String::new(),
        languages_server_to_client: String::new(),
        first_kex_packet_follows: false,
        nop: 0,
    }
}

#[test]
fn every_record_round_trips() {
    round_trip(Unimplemented { packet_number: 77 });
    round_trip(kexinit());
    round_trip(KexdhInit { client_ephemeral_pubkey: vec![3; 32] });
    round_trip(KexdhReply {
        server_public_host_key: blob(&[1; 32]),
        server_ephemeral_pubkey: vec![2; 32],
        exchange_hash_signature: blob(&[3; 64]),
    });
    round_trip(Newkeys {});
    round_trip(ServiceRequest { service_name: "ssh-userauth".to_string() });
    round_trip(ServiceAccept { service_name: "ssh-userauth".to_string() });
    round_trip(Disconnect {
        reason_code: DisconnectReasonCode::ByApplication,
        description: "bye".to_string(),
        language_tag: "en".to_string(),
    });
    round_trip(UserauthSuccess {});
    round_trip(UserauthPkOk { algorithm: "ssh-ed25519".to_string(), blob: blob(&[9; 32]) });
    round_trip(UserauthFailure { allowed_auth: "publickey,password".to_string(), partial_success: true });
    round_trip(ChannelOpen {
        channel_type: "session".to_string(),
        client_channel: 1,
        client_initial_window_size: u32::MAX,
        client_max_packet_size: 0x4_0000,
    });
    round_trip(ChannelOpenConfirmation {
        client_channel: 1,
        server_channel: 2,
        server_initial_window_size: 3,
        server_max_packet_size: 4,
    });
    round_trip(ChannelOpenFailure {
        client_channel: 1,
        reason_code: 2,
        description: "no".to_string(),
        language_tag: String::new(),
    });
    round_trip(ChannelData { recipient_channel: 5, data: b"hello\n".to_vec() });
    round_trip(ChannelExtendedData { recipient_channel: 5, data_type: 1, data: b"err\n".to_vec() });
    round_trip(ChannelEof { recipient_channel: 5 });
    round_trip(ChannelClose { recipient_channel: 5 });
    round_trip(ChannelSuccess { recipient_channel: 5 });
    round_trip(ChannelFailure { recipient_channel: 5 });
    round_trip(GlobalRequest { request_name: "hostkeys-00@openssh.com".to_string(), want_reply: false });
    round_trip(ChannelWindowAdjust { recipient_channel: 5, bytes_to_add: 0xc000_0000 });
    round_trip(blob(&[4; 32]));
}

#[test]
fn exchange_hash_record_round_trips_by_value() {
    let record = ExchangeHash {
        client_header: b"SSH-2.0-a".to_vec(),
        server_header: b"SSH-2.0-b".to_vec(),
        client_kexinit_payload: vec![20, 1],
        server_kexinit_payload: vec![20, 2],
        server_public_host_key: blob(&[1; 32]),
        client_ephemeral_pubkey: vec![3; 32],
        server_ephemeral_pubkey: vec![4; 32],
        shared_secret: UnsignedMpInt(vec![0x7f, 1, 2]),
    };
    let bytes = dump_of(&record);
    assert_eq!(ExchangeHash::parse(&bytes), Ok((record, bytes.len())));
    // it has no message number: the first bytes are the length of a string
    assert_eq!(&bytes[..4], &[0, 0, 0, 9]);
}

#[test]
fn exact_bytes_of_some_records() {
    assert_eq!(dump_of(&Newkeys {}), vec![21]);
    assert_eq!(dump_of(&UserauthSuccess {}), vec![52]);
    assert_eq!(dump_of(&Unimplemented { packet_number: 258 }), vec![3, 0, 0, 1, 2]);
    assert_eq!(
        dump_of(&ServiceRequest { service_name: "ssh-userauth".to_string() }),
        [&[5u8, 0, 0, 0, 12][..], b"ssh-userauth"].concat()
    );
    assert_eq!(
        dump_of(&ChannelData { recipient_channel: 1, data: vec![0xab] }),
        vec![94, 0, 0, 0, 1, 0, 0, 0, 1, 0xab]
    );
    assert_eq!(
        dump_of(&ChannelWindowAdjust { recipient_channel: 2, bytes_to_add: 3 }),
        vec![93, 0, 0, 0, 2, 0, 0, 0, 3]
    );
    assert_eq!(
        dump_of(&UserauthFailure { allowed_auth: "a".to_string(), partial_success: false }),
        vec![51, 0, 0, 0, 1, b'a', 0]
    );
    assert_eq!(
        dump_of(&blob(&[1, 2])),
        [&[0u8, 0, 0, 21, 0, 0, 0, 11][..], b"ssh-ed25519", &[0, 0, 0, 2, 1, 2]].concat()
    );
    let k = dump_of(&kexinit());
    assert_eq!(k[0], 20);
    assert_eq!(&k[1..17], &[7; 16]);
    assert_eq!(&k[k.len() - 5..], &[0, 0, 0, 0, 0]);
}

#[test]
fn the_type_byte_is_checked() {
    assert_eq!(Newkeys::parse(&[21]), Ok((Newkeys {}, 1)));
    assert_eq!(Newkeys::parse(&[52]), Err(Error::UnexpectedMessageType(MessageType::UserauthSuccess)));
    assert_eq!(Newkeys::parse(&[200]), Err(Error::UnknownMessageType(200)));
    assert_eq!(Newkeys::parse(&[]), Err(Error::TruncatedInput));
    assert_eq!(
        ServiceAccept::parse(&dump_of(&ServiceRequest { service_name: "x".to_string() })),
        Err(Error::UnexpectedMessageType(MessageType::ServiceRequest))
    );
    assert_eq!(expect_tag(&[94, 1], MessageType::ChannelData), Ok(()));
    assert_eq!(
        expect_tag(&[95], MessageType::ChannelData),
        Err(Error::UnexpectedMessageType(MessageType::ChannelExtendedData))
    );
    assert_eq!(expect_tag(&[], MessageType::ChannelData), Err(Error::TruncatedInput));
    assert_eq!(ChannelData::parse(&[94, 0, 0, 0, 1, 0, 0, 0, 2, 1]), Err(Error::TruncatedInput));
    assert_eq!(
        ServiceRequest::parse(&[5, 0, 0, 0, 1, 0xff]),
        Err(Error::InvalidUtf8)
    );
    assert_eq!(
        Disconnect::parse(&[1, 99, 0, 0, 0, 0, 0, 0, 0, 0]),
        Err(Error::InvalidData)
    );
}

#[test]
fn message_dispatches_on_the_type_byte() {
    let data = ChannelData { recipient_channel: 3, data: vec![1, 2, 3] };
    let bytes = dump_of(&data);
    assert_eq!(Message::parse(&bytes), Ok((Message::ChannelData(data.clone()), bytes.len())));
    assert_eq!(dump_of(&Message::ChannelData(data)), bytes);
    round_trip(Message::Kexinit(kexinit()));
    round_trip(Message::Newkeys(Newkeys {}));
    round_trip(Message::ChannelClose(ChannelClose { recipient_channel: 1 }));
    round_trip(Message::ChannelSuccess(ChannelSuccess { recipient_channel: 1 }));
    round_trip(Message::UserauthFailure(UserauthFailure {
        allowed_auth: "password".to_string(),
        partial_success: false,
    }));
    round_trip(Message::ChannelRequest(ChannelRequest::ExitStatus { recipient_channel: 0, exit_status: 1 }));
    round_trip(Message::UserauthRequest(UserauthRequest::Password {
        username: "u".to_string(),
        service_name: "ssh-connection".to_string(),
        password: "p".to_string(),
        new_password: None,
    }));
    assert_eq!(Message::parse(&[]), Err(Error::TruncatedInput));
    assert_eq!(Message::parse(&[0]), Err(Error::UnknownMessageType(0)));
    // types without a record are not implemented
    assert_eq!(Message::parse(&[2, 0, 0, 0, 0]), Err(Error::Unimplemented));
    assert_eq!(Message::parse(&[4]), Err(Error::Unimplemented));
    assert_eq!(Message::parse(&[53]), Err(Error::Unimplemented));
    assert_eq!(Message::parse(&[81]), Err(Error::Unimplemented));
    assert_eq!(Message::parse(&[82]), Err(Error::Unimplemented));
    let mut sink = Vec::new();
    assert_eq!(Message::Ignore.dump(&mut sink), Err(Error::Unimplemented));
    assert_eq!(Message::Debug.dump(&mut sink), Err(Error::Unimplemented));
    assert_eq!(Message::RequestSuccess.dump(&mut sink), Err(Error::Unimplemented));
    assert_eq!(Message::RequestFailure.dump(&mut sink), Err(Error::Unimplemented));
    assert!(sink.is_empty());
}

#[test]
fn message_knows_its_type() {
    assert_eq!(Message::Ignore.typ(), MessageType::Ignore);
    assert_eq!(Message::Debug.typ(), MessageType::Debug);
    assert_eq!(Message::RequestSuccess.typ(), MessageType::RequestSuccess);
    assert_eq!(Message::Newkeys(Newkeys {}).typ(), MessageType::Newkeys);
    assert_eq!(Message::Kexinit(kexinit()).typ(), MessageType::Kexinit);
    assert_eq!(Message::ChannelEof(ChannelEof { recipient_channel: 0 }).typ(), MessageType::ChannelEof);
    assert_eq!(
        Message::ChannelRequest(ChannelRequest::Other {
            recipient_channel: 0,
            request_type: "shell".to_string(),
            want_reply: true
        })
        .typ(),
        MessageType::ChannelRequest
    );
    for code in 0..=255u8 {
        if let Ok((message, _)) = Message::parse(&[code, 0, 0, 0, 0, 0, 0, 0, 0, 0, 0, 0, 0, 0, 0, 0, 0]) {
            assert_eq!(message.typ().code(), code);
        }
    }
}

#[test]
fn userauth_request_variants() {
    round_trip(UserauthRequest::Password {
        username: "alice".to_string(),
        service_name: "ssh-connection".to_string(),
        password: "secret".to_string(),
        new_password: None,
    });
    round_trip(UserauthRequest::Password {
        username: "alice".to_string(),
        service_name: "ssh-connection".to_string(),
        password: "old".to_string(),
        new_password: Some("new".to_string()),
    });
    round_trip(UserauthRequest::PublicKey {
        username: "alice".to_string(),
        service_name: "ssh-connection".to_string(),
        algorithm: "ssh-ed25519".to_string(),
        blob: blob(&[1; 32]),
        signature: None,
    });
    round_trip(UserauthRequest::PublicKey {
        username: "alice".to_string(),
        service_name: "ssh-connection".to_string(),
        algorithm: "ssh-ed25519".to_string(),
        blob: blob(&[1; 32]),
        signature: Some(blob(&[2; 64])),
    });
    let password = dump_of(&UserauthRequest::Password {
        username: "u".to_string(),
        service_name: "s".to_string(),
        password: "p".to_string(),
        new_password: None,
    });
    assert_eq!(
        password,
        [&[50u8, 0, 0, 0, 1, b'u', 0, 0, 0, 1, b's', 0, 0, 0, 8][..], b"password", &[0, 0, 0, 0, 1, b'p']].concat()
    );
    let none = [&[50u8, 0, 0, 0, 1, b'u', 0, 0, 0, 1, b's', 0, 0, 0, 4][..], b"none", &[0]].concat();
    assert_eq!(UserauthRequest::parse(&none), Err(Error::Unimplemented));
    assert_eq!(UserauthRequest::parse(&[51]), Err(Error::UnexpectedMessageType(MessageType::UserauthFailure)));
    assert_eq!(UserauthRequest::parse(&password[..password.len() - 1]), Err(Error::TruncatedInput));
}

#[test]
fn channel_request_variants() {
    round_trip(ChannelRequest::Exec { recipient_channel: 1, want_reply: true, command: "echo hello".to_string() });
    round_trip(ChannelRequest::Exec { recipient_channel: 1, want_reply: false, command: String::new() });
    round_trip(ChannelRequest::EnvironmentVariable {
        recipient_channel: 1,
        want_reply: false,
        name: "LANG".to_string(),
        value: "C".to_string(),
    });
    round_trip(ChannelRequest::ExitStatus { recipient_channel: 9, exit_status: 127 });
    assert_eq!(
        dump_of(&ChannelRequest::ExitStatus { recipient_channel: 1, exit_status: 2 }),
        [&[98u8, 0, 0, 0, 1, 0, 0, 0, 11][..], b"exit-status", &[0, 0, 0, 0, 2]].concat()
    );
    assert_eq!(
        dump_of(&ChannelRequest::Exec { recipient_channel: 1, want_reply: true, command: "ls".to_string() }),
        [&[98u8, 0, 0, 0, 1, 0, 0, 0, 4][..], b"exec", &[1, 0, 0, 0, 2, b'l', b's']].concat()
    );
    // an exit status never asks for a reply
    let wants = [&[98u8, 0, 0, 0, 1, 0, 0, 0, 11][..], b"exit-status", &[1, 0, 0, 0, 2]].concat();
    assert_eq!(ChannelRequest::parse(&wants), Err(Error::InvalidData));
    // any other request keeps its name, and nothing behind the common fields is read
    let shell = [&[98u8, 0, 0, 0, 7, 0, 0, 0, 5][..], b"shell", &[1, 9, 9]].concat();
    assert_eq!(
        ChannelRequest::parse(&shell),
        Ok((ChannelRequest::Other { recipient_channel: 7, request_type: "shell".to_string(), want_reply: true }, 15))
    );
    let mut sink = Vec::new();
    assert_eq!(
        ChannelRequest::Other { recipient_channel: 7, request_type: "shell".to_string(), want_reply: true }
            .dump(&mut sink),
        Err(Error::InvalidData)
    );
    assert_eq!(ChannelRequest::parse(&[99, 0, 0, 0, 1]), Err(Error::UnexpectedMessageType(MessageType::ChannelSuccess)));
    let cut = [&[98u8, 0, 0, 0, 1, 0, 0, 0, 4][..], b"exec", &[1, 0, 0, 0, 2, b'l']].concat();
    assert_eq!(ChannelRequest::parse(&cut), Err(Error::TruncatedInput));
}
