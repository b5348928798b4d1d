use tinyssh::error::Error;
use tinyssh::keygen::{create_ed25519_keypair, decode_hex, dump_ed25519_pk_openssh, ed25519_blob_len, encode_hex};
use tinyssh::messages::Blob;
use tinyssh::userauth::{sign_userauth, signed_blob};

const KEYPAIR_HEX: &str = "000102030405060708090a0b0c0d0e0f101112131415161718191a1b1c1d1e1f\
                           03a107bff3ce10be1d70dd18e74bc09967e4d6309ba50d5f1ddc8664125531b8";

fn hex(bytes: &[u8]) -> String {
    bytes.iter().map(|b| format!("{:02x}", b)).collect()
}

#[test]
fn blob_length_counts_both_length_fields() {
    assert_eq!(ed25519_blob_len(32), 51);
    assert_eq!(ed25519_blob_len(64), 83);
    assert_eq!(ed25519_blob_len(0), 19);
}

#[test]
fn hex_is_lower_case_high_half_first() {
    assert_eq!(encode_hex(&[]), "");
    assert_eq!(encode_hex(&[0x00, 0x0f, 0xf0, 0xff, 0x1a, 0xb2]), "000ff0ff1ab2");
    assert_eq!(encode_hex(&[0x9a, 0xa9]), "9aa9");
    let all: Vec<u8> = (0..=255u8).collect();
    assert_eq!(encode_hex(&all), hex(&all));
}

#[test]
fn hex_is_read_in_either_case() {
    assert_eq!(decode_hex::<3>("0aFfb2"), Some([0x0a, 0xff, 0xb2]));
    assert_eq!(decode_hex::<3>("0AFFB2"), Some([0x0a, 0xff, 0xb2]));
    assert_eq!(decode_hex::<0>(""), Some([]));
    assert_eq!(decode_hex::<1>("09"), Some([9]));
    assert_eq!(decode_hex::<1>("af"), Some([0xaf]));
}

#[test]
fn hex_of_another_length_or_alphabet_is_rejected() {
    assert_eq!(decode_hex::<3>("0aff"), None);
    assert_eq!(decode_hex::<3>("0affb2c"), None);
    assert_eq!(decode_hex::<3>("0affb2c3"), None);
    assert_eq!(decode_hex::<1>("0g"), None);
    assert_eq!(decode_hex::<1>("g0"), None);
    assert_eq!(decode_hex::<1>(" 0"), None);
    assert_eq!(decode_hex::<1>("0/"), None);
    assert_eq!(decode_hex::<1>("0:"), None);
    assert_eq!(decode_hex::<1>("0@"), None);
    assert_eq!(decode_hex::<1>("0G"), None);
    assert_eq!(decode_hex::<1>("0`"), None);
    assert_eq!(decode_hex::<1>("é"), None);
    assert_eq!(decode_hex::<1>(""), None);
}

#[test]
fn hex_round_trips() {
    let all: [u8; 256] = core::array::from_fn(|i| i as u8);
    assert_eq!(decode_hex::<256>(&encode_hex(&all)), Some(all));
}

#[test]
fn a_new_key_pair_is_128_digits_of_a_pair_that_signs() {
    let first = create_ed25519_keypair();
    assert_eq!(first.len(), 128);
    assert!(first.bytes().all(|c| c.is_ascii_digit() || (b'a'..=b'f').contains(&c)));
    let pair: [u8; 64] = decode_hex::<64>(&first).unwrap();
    // the second half is the public key of the first
    let parsed = ed25519_dalek::Keypair::from_bytes(&pair).unwrap();
    let secret = ed25519_dalek::SecretKey::from_bytes(&pair[..32]).unwrap();
    assert_eq!(ed25519_dalek::PublicKey::from(&secret).to_bytes(), parsed.public.to_bytes());
    // and no two are the same
    assert!(create_ed25519_keypair() != first);
}

#[test]
fn authorized_keys_line() {
    assert_eq!(
        dump_ed25519_pk_openssh(KEYPAIR_HEX, "alice@example"),
        Ok("ssh-ed25519 AAAAC3NzaC1lZDI1NTE5AAAAIAOhB7/zzhC+HXDdGOdLwJln5NYwm6UNXx3chmQSVTG4 alice@example\n"
            .to_string())
    );
    // the public key is the second half, whatever the first half holds
    let other: String = (0..64u8).map(|b| format!("{:02x}", b)).collect();
    assert_eq!(
        dump_ed25519_pk_openssh(&other, ""),
        Ok("ssh-ed25519 AAAAC3NzaC1lZDI1NTE5AAAAICAhIiMkJSYnKCkqKywtLi8wMTIzNDU2Nzg5Ojs8PT4/ \n".to_string())
    );
    // upper case digits are read as well
    assert_eq!(
        dump_ed25519_pk_openssh(&KEYPAIR_HEX.to_uppercase(), "bob"),
        Ok("ssh-ed25519 AAAAC3NzaC1lZDI1NTE5AAAAIAOhB7/zzhC+HXDdGOdLwJln5NYwm6UNXx3chmQSVTG4 bob\n".to_string())
    );
}

#[test]
fn a_broken_key_pair_text_is_rejected() {
    assert_eq!(dump_ed25519_pk_openssh("", "alice"), Err(Error::InvalidKeypair));
    assert_eq!(dump_ed25519_pk_openssh(&KEYPAIR_HEX[..126], "alice"), Err(Error::InvalidKeypair));
    assert_eq!(dump_ed25519_pk_openssh(&format!("{}00", KEYPAIR_HEX), "alice"), Err(Error::InvalidKeypair));
    let mut bad = KEYPAIR_HEX.to_string();
    bad.replace_range(10..11, "x");
    assert_eq!(dump_ed25519_pk_openssh(&bad, "alice"), Err(Error::InvalidKeypair));
}

#[test]
fn signed_blob_is_bit_exact() {
    let pair: [u8; 64] = decode_hex::<64>(KEYPAIR_HEX).unwrap();
    let blob = Blob { blob_len: 51, header: "ssh-ed25519".to_string(), content: pair[32..].to_vec() };
    let bytes = signed_blob(&[0xaa; 32], "alice", "ssh-connection", &blob).unwrap();
    assert_eq!(bytes.len(), 148);
    assert_eq!(&bytes[..4], &[0, 0, 0, 32]);
    assert_eq!(bytes[36], 50);
    assert_eq!(
        hex(&hmac_sha256::Hash::hash(&bytes)),
        "4285e32900e1e7f06870491018df88fee21f71a8c4de085faebe1101cbaca7a3"
    );
}

#[test]
fn signature_matches_golden_value_and_verifies() {
    let pair: [u8; 64] = decode_hex::<64>(KEYPAIR_HEX).unwrap();
    let blob = Blob { blob_len: 51, header: "ssh-ed25519".to_string(), content: pair[32..].to_vec() };
    let signature = sign_userauth(&pair, &[0xaa; 32], "alice", "ssh-connection", &blob).unwrap();
    assert_eq!(
        hex(&signature),
        "a62e401e4045f8af7c932d0f3c450bc3f2d5434b1fc5e01d2fb771b84daffac1\
         f4f0bf15ff7d671a53d576ea7b47076a04769f227488397f4c5f1aeeb3a3250d"
    );
    let bytes = signed_blob(&[0xaa; 32], "alice", "ssh-connection", &blob).unwrap();
    let public = ed25519_dalek::PublicKey::from_bytes(&pair[32..]).unwrap();
    let parsed = ed25519_dalek::Signature::from_bytes(&signature).unwrap();
    assert!(ed25519_dalek::Verifier::verify(&public, &bytes, &parsed).is_ok());
    // another user name, another signature
    let other = sign_userauth(&pair, &[0xaa; 32], "bob", "ssh-connection", &blob).unwrap();
    assert!(other != signature);
}

#[test]
fn a_pair_without_a_public_key_cannot_sign() {
    // a second half that is no point of the curve
    let mut pair = [0u8; 64];
    let mut found = false;
    for y in 0..=255u8 {
        pair[32] = y;
        if ed25519_dalek::PublicKey::from_bytes(&pair[32..]).is_err() {
            found = true;
            break;
        }
    }
    assert!(found);
    let blob = Blob { blob_len: 51, header: "ssh-ed25519".to_string(), content: pair[32..].to_vec() };
    assert_eq!(
        sign_userauth(&pair, &[0xaa; 32], "alice", "ssh-connection", &blob),
        Err(Error::InvalidKeypair)
    );
}
