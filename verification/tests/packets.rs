use tinyssh::cipher::Cipher;
use tinyssh::error::Error;
use tinyssh::hmac::Hmac;
use tinyssh::messages::{ChannelData, GlobalRequest, Message, Newkeys, ServiceRequest};
use tinyssh::packets::{ct_eq, filtered, frame, PacketReader, PacketWriter};
use tinyssh::parsedump::ParseDump;

fn key() -> [u8; 32] {
    let mut k = [0u8; 32];
    for i in 0..32 {
        k[i] = i as u8;
    }
    k
}

fn iv() -> [u8; 16] {
    let mut v = [0u8; 16];
    for i in 0..16 {
        v[i] = i as u8;
    }
    v
}

fn hex(bytes: &[u8]) -> String {
    bytes.iter().map(|b| format!("{:02x}", b)).collect()
}

fn keyed_pair() -> (PacketWriter, PacketReader) {
    let mut writer = PacketWriter::new();
    let mut reader = PacketReader::new();
    writer.set_encryptor(Cipher::new(key(), iv()), Hmac::new(&[9; 32]), 16);
    reader.set_decryptor(Cipher::new(key(), iv()), Hmac::new(&[9; 32]), 16, 32);
    (writer, reader)
}

#[test]
fn frame_pads_to_the_block_size() {
    // 5 + 1 = 6 bytes, two short of a block of eight
    assert_eq!(frame(&[21], 8, false), Ok(vec![0, 0, 0, 4, 2, 21, 0, 0]));
    // 5 + 3 = 8 bytes: no padding at all before keys are in use
    assert_eq!(frame(&[1, 2, 3], 8, false), Ok(vec![0, 0, 0, 4, 0, 1, 2, 3]));
    // with a MAC the two bytes are too few, and a block more is added
    assert_eq!(
        frame(&[21], 8, true),
        Ok(vec![0, 0, 0, 12, 10, 21, 0, 0, 0, 0, 0, 0, 0, 0, 0, 0])
    );
    // an empty payload
    assert_eq!(frame(&[], 8, false), Ok(vec![0, 0, 0, 4, 3, 0, 0, 0]));
    assert_eq!(frame(&[], 16, true), Ok(vec![0, 0, 0, 12, 11, 0, 0, 0, 0, 0, 0, 0, 0, 0, 0, 0]));
}

#[test]
fn frame_shape_holds_for_many_sizes() {
    for block in [8usize, 16, 32, 128] {
        for mac in [false, true] {
            for n in 0..300usize {
                let payload = vec![0x5a; n];
                let bytes = frame(&payload, block, mac).unwrap();
                assert_eq!(bytes.len() % block, 0);
                let length = u32::from_be_bytes([bytes[0], bytes[1], bytes[2], bytes[3]]) as usize;
                assert_eq!(length, bytes.len() - 4);
                let pad = bytes[4] as usize;
                assert_eq!(length, 1 + n + pad);
                assert!(pad < 2 * block);
                if mac {
                    assert!(pad >= 4);
                } else {
                    assert!(pad < block);
                }
                assert_eq!(&bytes[5..5 + n], &payload[..]);
                assert!(bytes[5 + n..].iter().all(|b| *b == 0));
            }
        }
    }
}

#[test]
fn clear_packets_go_through() {
    let mut writer = PacketWriter::new();
    let mut reader = PacketReader::new();
    let wire = writer.send_raw(&[20, 1, 2, 3]).unwrap();
    assert_eq!(wire, vec![0, 0, 0, 12, 7, 20, 1, 2, 3, 0, 0, 0, 0, 0, 0, 0]);
    assert_eq!(reader.recv_raw(&wire), Ok((Some(vec![20, 1, 2, 3]), 16)));
    let wire = writer.send(&Newkeys {}).unwrap();
    assert_eq!(wire, vec![0, 0, 0, 4, 2, 21, 0, 0]);
    assert_eq!(reader.recv::<Newkeys>(&wire), Ok((Some(Newkeys {}), 8)));
}

#[test]
fn what_follows_a_packet_is_left_alone() {
    let mut writer = PacketWriter::new();
    let mut reader = PacketReader::new();
    let mut stream = writer.send_raw(&[21]).unwrap();
    stream.extend(writer.send_raw(&[5, 0, 0, 0, 0]).unwrap());
    let (first, n) = reader.recv_raw(&stream).unwrap();
    assert_eq!(first, Some(vec![21]));
    assert_eq!(n, 8);
    let (second, m) = reader.recv_raw(&stream[n..]).unwrap();
    assert_eq!(second, Some(vec![5, 0, 0, 0, 0]));
    assert_eq!(n + m, stream.len());
}

#[test]
fn an_incomplete_packet_is_truncated_and_can_be_retried() {
    let (mut writer, mut reader) = keyed_pair();
    let wire = writer.send_raw(&[94, 0, 0, 0, 1, 0, 0, 0, 1, 7]).unwrap();
    for cut in [0, 1, 15, 16, 31, wire.len() - 1] {
        assert_eq!(reader.recv_raw(&wire[..cut]), Err(Error::Truncated));
    }
    // nothing was lost: the whole packet still reads
    assert_eq!(reader.recv_raw(&wire), Ok((Some(vec![94, 0, 0, 0, 1, 0, 0, 0, 1, 7]), wire.len())));
}

#[test]
fn keyed_packet_matches_golden_bytes() {
    let mut writer = PacketWriter::new();
    // three clear packets bring the sequence number to three
    for _ in 0..3 {
        writer.send_raw(&[2]).unwrap();
    }
    writer.set_encryptor(Cipher::new(key(), iv()), Hmac::new(&[9; 32]), 16);
    let wire = writer.send(&ServiceRequest { service_name: "ssh-userauth".to_string() }).unwrap();
    assert_eq!(
        hex(&wire),
        "5a6e044b02fe7196f022264e6aeed3e1058171a0b7ed585d5516fb5172e520cf\
         5a80f51831e3bf4aaba0d1cbb89d27f6313e15626cbc162551b82ad8a3049933"
    );
}

#[test]
fn keyed_packets_go_through_in_order() {
    let (mut writer, mut reader) = keyed_pair();
    let mut stream = Vec::new();
    let mut payloads = Vec::new();
    for n in [1usize, 10, 11, 12, 27, 100, 1000] {
        let payload: Vec<u8> = (0..n).map(|i| 90 + (i % 7) as u8).collect();
        let wire = writer.send_raw(&payload).unwrap();
        assert_eq!((wire.len() - 32) % 16, 0);
        stream.extend(wire);
        payloads.push(payload);
    }
    let mut at = 0;
    for payload in payloads {
        let (got, n) = reader.recv_raw(&stream[at..]).unwrap();
        assert_eq!(got, Some(payload));
        at += n;
    }
    assert_eq!(at, stream.len());
    assert_eq!(reader.recv_raw(&stream[at..]), Err(Error::Truncated));
}

#[test]
fn a_changed_byte_is_a_bad_mac() {
    let (mut writer, _) = keyed_pair();
    let wire = writer.send_raw(&[94, 0, 0, 0, 1, 0, 0, 0, 2, 7, 8]).unwrap();
    // any byte behind the length field, and any byte of the MAC
    for at in [4usize, 5, 10, 20, 31, 32, 48, wire.len() - 1] {
        let (_, mut reader) = keyed_pair();
        let mut changed = wire.clone();
        changed[at] ^= 1;
        assert_eq!(reader.recv_raw(&changed), Err(Error::BadMac));
        // the reader is unchanged: the true packet still reads
        assert!(reader.recv_raw(&wire).is_ok());
    }
}

#[test]
fn a_wrong_sequence_number_is_a_bad_mac() {
    let (mut writer, mut reader) = keyed_pair();
    let first = writer.send_raw(&[94, 1]).unwrap();
    let second = writer.send_raw(&[94, 2]).unwrap();
    assert!(reader.recv_raw(&first).is_ok());
    // replaying the first packet: the keystream and the sequence number have moved on
    assert!(reader.recv_raw(&first).is_err());
    assert_eq!(reader.recv_raw(&second), Ok((Some(vec![94, 2]), second.len())));
    // the same keys, but the reader counts from another number
    let mut writer = PacketWriter::new();
    writer.send_raw(&[2]).unwrap();
    writer.set_encryptor(Cipher::new(key(), iv()), Hmac::new(&[9; 32]), 16);
    let wire = writer.send_raw(&[94, 3]).unwrap();
    let (_, mut reader) = keyed_pair();
    assert_eq!(reader.recv_raw(&wire), Err(Error::BadMac));
}

#[test]
fn clear_packet_to_a_keyed_reader_is_a_bad_mac() {
    // the sender has not switched to the new keys, the receiver has
    let mut clear_writer = PacketWriter::new();
    let clear = clear_writer.send_raw(&[5, 0, 0, 0, 12, 115, 115, 104, 45, 117, 115, 101, 114, 97, 117, 116, 104]).unwrap();
    let mut found = false;
    for seed in 0..=255u8 {
        for seed2 in 0..=255u8 {
            let mut counter = iv();
            counter[0] = seed;
            counter[1] = seed2;
            let mut reader = PacketReader::new();
            reader.set_decryptor(Cipher::new(key(), counter), Hmac::new(&[9; 32]), 16, 32);
            // enough bytes behind the packet for any length up to 64 KiB
            let mut input = clear.clone();
            input.resize(0x1_0000 + 64, 0);
            match reader.recv_raw(&input) {
                Err(Error::BadMac) => {
                    found = true;
                },
                Err(Error::Truncated) | Err(Error::InvalidLength) => {},
                other => panic!("a clear packet was taken: {:?}", other),
            }
            if found {
                break;
            }
        }
        if found {
            break;
        }
    }
    assert!(found);
}

#[test]
fn keyed_packet_to_a_clear_reader_does_not_read() {
    let (mut writer, _) = keyed_pair();
    let wire = writer.send_raw(&[21]).unwrap();
    let mut reader = PacketReader::new();
    let got = reader.recv_raw(&wire);
    assert!(got != Ok((Some(vec![21]), wire.len())));
}

#[test]
fn a_padding_count_beyond_the_length_is_invalid() {
    let mut reader = PacketReader::new();
    // length 4, padding 4: no room for the padding byte itself
    assert_eq!(reader.recv_raw(&[0, 0, 0, 4, 4, 0, 0, 0]), Err(Error::InvalidLength));
    assert_eq!(reader.recv_raw(&[0, 0, 0, 4, 200, 0, 0, 0]), Err(Error::InvalidLength));
    // length 4, padding 3: an empty payload
    assert_eq!(reader.recv_raw(&[0, 0, 0, 4, 3, 0, 0, 0]), Ok((Some(vec![]), 8)));
    // a length that is shorter than the first block
    assert_eq!(reader.recv_raw(&[0, 0, 0, 3, 0, 1, 2, 3]), Err(Error::InvalidLength));
    assert_eq!(reader.recv_raw(&[0, 0, 0, 0, 0, 0, 0, 0]), Err(Error::InvalidLength));
}

#[test]
fn ignore_and_quiet_global_requests_are_filtered() {
    assert!(filtered(&[2]));
    assert!(filtered(&[2, 0, 0, 0, 1, 65]));
    let mut quiet = Vec::new();
    GlobalRequest { request_name: "hostkeys-00@openssh.com".to_string(), want_reply: false }
        .dump(&mut quiet)
        .unwrap();
    assert!(filtered(&quiet));
    quiet.extend_from_slice(&[1, 2, 3]);
    assert!(filtered(&quiet));
    let mut loud = Vec::new();
    GlobalRequest { request_name: "keepalive@openssh.com".to_string(), want_reply: true }.dump(&mut loud).unwrap();
    assert!(!filtered(&loud));
    assert!(!filtered(&[80]));
    assert!(!filtered(&[80, 0, 0, 0, 1, 0xff, 0]));
    assert!(!filtered(&[]));
    assert!(!filtered(&[21]));
    assert!(!filtered(&[94, 2]));

    let (mut writer, mut reader) = keyed_pair();
    let ignore = writer.send_raw(&[2, 0, 0, 0, 0]).unwrap();
    let request = writer.send_raw(&quiet).unwrap();
    let data = writer.send(&ChannelData { recipient_channel: 0, data: vec![1] }).unwrap();
    assert_eq!(reader.recv_raw(&ignore), Ok((None, ignore.len())));
    assert_eq!(reader.recv::<Message>(&request), Ok((None, request.len())));
    // the filtered packets were counted: the next one verifies
    assert_eq!(
        reader.recv::<Message>(&data),
        Ok((Some(Message::ChannelData(ChannelData { recipient_channel: 0, data: vec![1] })), data.len()))
    );
}

#[test]
fn recv_reports_a_payload_of_another_type() {
    let mut writer = PacketWriter::new();
    let mut reader = PacketReader::new();
    let wire = writer.send(&Newkeys {}).unwrap();
    assert!(reader.recv::<ServiceRequest>(&wire).is_err());
    // the packet was taken all the same
    let next = writer.send(&Newkeys {}).unwrap();
    assert_eq!(reader.recv::<Newkeys>(&next), Ok((Some(Newkeys {}), next.len())));
}

#[test]
fn constant_time_comparison() {
    assert!(ct_eq(&[], &[]));
    assert!(ct_eq(&[1, 2, 3], &[1, 2, 3]));
    assert!(!ct_eq(&[1, 2, 3], &[1, 2, 4]));
    assert!(!ct_eq(&[0, 2, 3], &[1, 2, 3]));
    assert!(!ct_eq(&[1, 2, 3], &[1, 2]));
    assert!(!ct_eq(&[0x80], &[0x00]));
}

#[test]
fn packets_need_room_in_the_keystream() {
    if usize::BITS == 64 {
        let mut used = Cipher::new(key(), iv());
        used.skip(usize::MAX - 15);
        let mut writer = PacketWriter::new();
        writer.set_encryptor(used, Hmac::new(&[9; 32]), 16);
        assert_eq!(writer.send_raw(&[21]), Err(Error::Unimplemented));
        // with room for exactly one block the packet goes
        let mut used = Cipher::new(key(), iv());
        used.skip(usize::MAX - 16);
        let mut writer = PacketWriter::new();
        writer.set_encryptor(used, Hmac::new(&[9; 32]), 16);
        assert_eq!(writer.send_raw(&[21]).map(|wire| wire.len()), Ok(48));
        let mut used = Cipher::new(key(), iv());
        used.skip(usize::MAX - 10);
        let mut reader = PacketReader::new();
        reader.set_decryptor(used, Hmac::new(&[9; 32]), 16, 32);
        assert_eq!(reader.recv_raw(&[0; 64]), Err(Error::Unimplemented));
    }
}

#[test]
fn sequence_numbers_go_on_when_keys_come_into_use() {
    let mut writer = PacketWriter::new();
    let mut reader = PacketReader::new();
    for _ in 0..5 {
        let wire = writer.send_raw(&[21]).unwrap();
        reader.recv_raw(&wire).unwrap();
    }
    writer.set_encryptor(Cipher::new(key(), iv()), Hmac::new(&[9; 32]), 16);
    reader.set_decryptor(Cipher::new(key(), iv()), Hmac::new(&[9; 32]), 16, 32);
    let wire = writer.send_raw(&[5, 1, 2]).unwrap();
    // the MAC is over the sequence number five
    let mut signed = vec![0, 0, 0, 5];
    signed.extend(frame(&[5, 1, 2], 16, true).unwrap());
    assert_eq!(&wire[wire.len() - 32..], &hmac_sha256::HMAC::mac(&signed, &[9; 32])[..]);
    assert_eq!(reader.recv_raw(&wire), Ok((Some(vec![5, 1, 2]), wire.len())));
}
