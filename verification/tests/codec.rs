use tinyssh::error::{Error, IoKind};
use tinyssh::messages::{DisconnectReasonCode, MessageType};
use tinyssh::mpint::UnsignedMpInt;
use tinyssh::parsedump::{
    bytes_eq, dump_bytes, dump_str, parse_bytes, parse_str, put_slice, put_u32, put_u8, tail, text_eq, text_is,
    text_of_ascii, try_get, try_u32, ParseDump,
};

fn dump_of<T: ParseDump>(v: &T) -> Vec<u8> {
    let mut out = Vec::new();
    v.dump(&mut out).unwrap();
    out
}

fn value(bytes: &[u8]) -> u128 {
    bytes.iter().fold(0u128, |acc, b| acc * 256 + *b as u128)
}

#[test]
fn bool_has_one_byte() {
    assert_eq!(dump_of(&true), vec![1]);
    assert_eq!(dump_of(&false), vec![0]);
    assert_eq!(bool::parse(&[0]), Ok((false, 1)));
    assert_eq!(bool::parse(&[1]), Ok((true, 1)));
    assert_eq!(bool::parse(&[255, 9]), Ok((true, 1)));
    assert_eq!(bool::parse(&[]), Err(Error::TruncatedInput));
}

#[test]
fn byte_stands_for_itself() {
    assert_eq!(dump_of(&0x7fu8), vec![0x7f]);
    assert_eq!(<u8 as ParseDump>::parse(&[0xfe, 1]), Ok((0xfe, 1)));
    assert_eq!(<u8 as ParseDump>::parse(&[]), Err(Error::TruncatedInput));
}

#[test]
fn uint32_is_big_endian() {
    assert_eq!(dump_of(&0x0102_0304u32), vec![1, 2, 3, 4]);
    assert_eq!(dump_of(&0u32), vec![0, 0, 0, 0]);
    assert_eq!(dump_of(&u32::MAX), vec![255, 255, 255, 255]);
    assert_eq!(<u32 as ParseDump>::parse(&[0, 0, 1, 0, 9]), Ok((256, 4)));
    assert_eq!(<u32 as ParseDump>::parse(&[0xde, 0xad, 0xbe, 0xef]), Ok((0xdead_beef, 4)));
    assert_eq!(<u32 as ParseDump>::parse(&[0, 0, 1]), Err(Error::TruncatedInput));
}

#[test]
fn try_u32_reads_four_bytes() {
    assert_eq!(try_u32(&[0, 0, 0, 42]), Ok(42));
    assert_eq!(try_u32(&[1, 0, 0, 0, 7, 7]), Ok(0x0100_0000));
    assert_eq!(try_u32(&[1, 2, 3]), Err(Error::TruncatedInput));
    assert_eq!(try_u32(&[]), Err(Error::TruncatedInput));
}

#[test]
fn try_get_copies_a_prefix() {
    assert_eq!(try_get::<3>(&[1, 2, 3, 4]), Ok([1, 2, 3]));
    assert_eq!(try_get::<0>(&[]), Ok([]));
    assert_eq!(try_get::<4>(&[1, 2, 3, 4]), Ok([1, 2, 3, 4]));
    assert_eq!(try_get::<5>(&[1, 2, 3, 4]), Err(Error::TruncatedInput));
}

#[test]
fn array_is_copied_verbatim() {
    let cookie: [u8; 16] = [9, 8, 7, 6, 5, 4, 3, 2, 1, 0, 1, 2, 3, 4, 5, 6];
    assert_eq!(dump_of(&cookie), cookie.to_vec());
    let mut input = cookie.to_vec();
    input.push(77);
    assert_eq!(<[u8; 16] as ParseDump>::parse(&input), Ok((cookie, 16)));
    assert_eq!(<[u8; 16] as ParseDump>::parse(&input[..15]), Err(Error::TruncatedInput));
}

#[test]
fn bytes_carry_their_length() {
    assert_eq!(dump_of(&vec![0xaau8, 0xbb]), vec![0, 0, 0, 2, 0xaa, 0xbb]);
    assert_eq!(dump_of(&Vec::<u8>::new()), vec![0, 0, 0, 0]);
    assert_eq!(<Vec<u8> as ParseDump>::parse(&[0, 0, 0, 1, 5, 6]), Ok((vec![5], 5)));
    assert_eq!(<Vec<u8> as ParseDump>::parse(&[0, 0, 0, 0]), Ok((vec![], 4)));
    assert_eq!(<Vec<u8> as ParseDump>::parse(&[0, 0, 0, 3, 5, 6]), Err(Error::TruncatedInput));
    assert_eq!(<Vec<u8> as ParseDump>::parse(&[0, 0]), Err(Error::TruncatedInput));
    assert_eq!(<Vec<u8> as ParseDump>::parse(&[255, 255, 255, 255, 1]), Err(Error::TruncatedInput));
}

#[test]
fn parse_bytes_borrows_the_content() {
    let input = [0, 0, 0, 2, 7, 8, 9];
    let (content, n) = parse_bytes(&input).unwrap();
    assert_eq!(content, &[7, 8]);
    assert_eq!(n, 6);
    let mut sink = vec![1];
    dump_bytes(&[7, 8], &mut sink).unwrap();
    assert_eq!(sink, vec![1, 0, 0, 0, 2, 7, 8]);
}

#[test]
fn string_must_be_utf8() {
    assert_eq!(dump_of(&"hi".to_string()), vec![0, 0, 0, 2, b'h', b'i']);
    assert_eq!(dump_of(&"é".to_string()), vec![0, 0, 0, 2, 0xc3, 0xa9]);
    assert_eq!(<String as ParseDump>::parse(&[0, 0, 0, 2, 0xc3, 0xa9, 1]), Ok(("é".to_string(), 6)));
    assert_eq!(<String as ParseDump>::parse(&[0, 0, 0, 0]), Ok((String::new(), 4)));
    assert_eq!(<String as ParseDump>::parse(&[0, 0, 0, 1, 0xff]), Err(Error::InvalidUtf8));
    assert_eq!(<String as ParseDump>::parse(&[0, 0, 0, 2, 0xc3]), Err(Error::TruncatedInput));
    assert_eq!(<String as ParseDump>::parse(&[0, 0, 0, 1, 0xc3]), Err(Error::InvalidUtf8));
    assert_eq!(parse_str(&[0, 0, 0, 3, b'a', b'b', b'c']), Ok(("abc".to_string(), 7)));
    let mut sink = Vec::new();
    dump_str("abc", &mut sink).unwrap();
    assert_eq!(sink, vec![0, 0, 0, 3, b'a', b'b', b'c']);
}

#[test]
fn helpers_append_and_cut() {
    let mut sink = vec![9];
    put_u8(&mut sink, 1);
    put_u32(&mut sink, 0x0a0b_0c0d);
    put_slice(&mut sink, &[5, 5]);
    assert_eq!(sink, vec![9, 1, 0x0a, 0x0b, 0x0c, 0x0d, 5, 5]);
    assert_eq!(tail(&sink, 6), &[5, 5]);
    assert_eq!(tail(&sink, 8), &[] as &[u8]);
}

#[test]
fn equality_of_bytes_and_texts() {
    assert!(bytes_eq(&[1, 2], &[1, 2]));
    assert!(!bytes_eq(&[1, 2], &[1, 3]));
    assert!(!bytes_eq(&[1, 2], &[1, 2, 3]));
    assert!(bytes_eq(&[], &[]));
    assert!(text_eq("exec", "exec"));
    assert!(!text_eq("exec", "env"));
    assert!(text_is(&"env".to_string(), "env"));
    assert!(!text_is(&"ENV".to_string(), "env"));
    assert_eq!(text_of_ascii(b"0a1f"), "0a1f".to_string());
}

#[test]
fn mpint_zero_is_four_zero_bytes() {
    assert_eq!(dump_of(&UnsignedMpInt(vec![])), vec![0, 0, 0, 0]);
    assert_eq!(dump_of(&UnsignedMpInt(vec![0])), vec![0, 0, 0, 0]);
    assert_eq!(dump_of(&UnsignedMpInt(vec![0, 0, 0])), vec![0, 0, 0, 0]);
}

#[test]
fn mpint_high_bit_gets_one_zero_byte() {
    assert_eq!(dump_of(&UnsignedMpInt(vec![0x80])), vec![0, 0, 0, 2, 0, 0x80]);
    assert_eq!(dump_of(&UnsignedMpInt(vec![0xff, 0x01])), vec![0, 0, 0, 3, 0, 0xff, 0x01]);
    assert_eq!(dump_of(&UnsignedMpInt(vec![0x7f])), vec![0, 0, 0, 1, 0x7f]);
    // leading zeros of the magnitude mean nothing
    assert_eq!(dump_of(&UnsignedMpInt(vec![0, 0, 0x80])), vec![0, 0, 0, 2, 0, 0x80]);
}

#[test]
fn mpint_leading_zeros_are_omitted() {
    assert_eq!(dump_of(&UnsignedMpInt(vec![0, 0, 0x12, 0x34])), vec![0, 0, 0, 2, 0x12, 0x34]);
    assert_eq!(dump_of(&UnsignedMpInt(vec![0, 1])), vec![0, 0, 0, 1, 1]);
    // the examples of the SSH architecture document
    assert_eq!(
        dump_of(&UnsignedMpInt(vec![0x09, 0xa3, 0x78, 0xf9, 0xb2, 0xe3, 0x32, 0xa7])),
        vec![0, 0, 0, 8, 0x09, 0xa3, 0x78, 0xf9, 0xb2, 0xe3, 0x32, 0xa7]
    );
}

#[test]
fn mpint_dump_of_parse_is_the_same_bytes() {
    let encodings: Vec<Vec<u8>> = vec![
        vec![0, 0, 0, 0],
        vec![0, 0, 0, 1, 0x7f],
        vec![0, 0, 0, 2, 0, 0x80],
        vec![0, 0, 0, 3, 1, 0, 0],
        vec![0, 0, 0, 5, 0, 0xde, 0xad, 0xbe, 0xef],
    ];
    for bytes in encodings {
        let (value, n) = UnsignedMpInt::parse(&bytes).unwrap();
        assert_eq!(n, bytes.len());
        assert_eq!(dump_of(&value), bytes);
    }
}

#[test]
fn mpint_parse_of_dump_has_the_same_value() {
    let numbers: Vec<Vec<u8>> = vec![vec![], vec![0, 0, 5], vec![0x80, 0], vec![0xff; 16], vec![1, 2, 3]];
    for magnitude in numbers {
        let dumped = dump_of(&UnsignedMpInt(magnitude.clone()));
        let (parsed, n) = UnsignedMpInt::parse(&dumped).unwrap();
        assert_eq!(n, dumped.len());
        assert_eq!(value(&parsed.0), value(&magnitude));
    }
    assert_eq!(UnsignedMpInt::parse(&[0, 0, 0, 2, 1]), Err(Error::TruncatedInput));
}

#[test]
fn message_type_numbers() {
    assert_eq!(MessageType::Disconnect.code(), 1);
    assert_eq!(MessageType::Kexinit.code(), 20);
    assert_eq!(MessageType::Newkeys.code(), 21);
    assert_eq!(MessageType::KexdhInit.code(), 30);
    assert_eq!(MessageType::KexdhReply.code(), 31);
    assert_eq!(MessageType::UserauthRequest.code(), 50);
    assert_eq!(MessageType::UserauthPkOk.code(), 60);
    assert_eq!(MessageType::GlobalRequest.code(), 80);
    assert_eq!(MessageType::ChannelOpen.code(), 90);
    assert_eq!(MessageType::ChannelFailure.code(), 100);
    assert_eq!(MessageType::try_from(94), Ok(MessageType::ChannelData));
    assert_eq!(MessageType::try_from(53), Ok(MessageType::UserauthBanner));
    assert_eq!(MessageType::try_from(0), Err(Error::UnknownMessageType(0)));
    assert_eq!(MessageType::try_from(7), Err(Error::UnknownMessageType(7)));
    assert_eq!(MessageType::try_from(101), Err(Error::UnknownMessageType(101)));
    for code in 0..=255u8 {
        if let Ok(t) = MessageType::try_from(code) {
            assert_eq!(t.code(), code);
        }
    }
}

#[test]
fn message_type_by_record_name() {
    assert_eq!(MessageType::from_struct_name("Kexinit"), Some(MessageType::Kexinit));
    assert_eq!(MessageType::from_struct_name("ChannelRequest"), Some(MessageType::ChannelRequest));
    assert_eq!(MessageType::from_struct_name("ChannelOpenConfirmation"), Some(MessageType::ChannelOpenConfirmation));
    assert_eq!(MessageType::from_struct_name("ExchangeHash"), None);
    assert_eq!(MessageType::from_struct_name("Blob"), None);
    assert_eq!(MessageType::from_struct_name("kexinit"), None);
    assert_eq!(MessageType::from_struct_name(""), None);
}

#[test]
fn disconnect_reason_codes() {
    assert_eq!(DisconnectReasonCode::HostNotAllowedToConnect.code(), 1);
    assert_eq!(DisconnectReasonCode::ByApplication.code(), 11);
    assert_eq!(DisconnectReasonCode::IllegalUserName.code(), 15);
    assert_eq!(DisconnectReasonCode::of_code(9), Some(DisconnectReasonCode::HostKeyNotVerifiable));
    assert_eq!(DisconnectReasonCode::of_code(0), None);
    assert_eq!(DisconnectReasonCode::of_code(16), None);
    assert_eq!(DisconnectReasonCode::parse(&[5, 1]), Ok((DisconnectReasonCode::MacError, 1)));
    assert_eq!(DisconnectReasonCode::parse(&[16]), Err(Error::InvalidData));
    assert_eq!(DisconnectReasonCode::parse(&[]), Err(Error::TruncatedInput));
    assert_eq!(dump_of(&DisconnectReasonCode::ProtocolError), vec![2]);
}

#[test]
fn io_failures_are_classified() {
    assert_eq!(Error::from_io(IoKind::WouldBlock), Error::Timeout);
    assert_eq!(Error::from_io(IoKind::TimedOut), Error::Timeout);
    assert_eq!(Error::from_io(IoKind::UnexpectedEof), Error::TransportIO(IoKind::UnexpectedEof));
    assert_eq!(Error::from_io(IoKind::Other), Error::TransportIO(IoKind::Other));
}
