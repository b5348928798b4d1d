use tinyssh::cipher::Cipher;
use tinyssh::error::Error;
use tinyssh::hmac::{xor, Hmac};
use tinyssh::kex::{exchange_hash, reply_keys, sha256, verify_host, KeyExchangeOutput};
use tinyssh::messages::{Blob, KexdhReply, Newkeys, ServiceRequest};
use tinyssh::mpint::UnsignedMpInt;

fn hex(bytes: &[u8]) -> String {
    bytes.iter().map(|b| format!("{:02x}", b)).collect()
}

fn counting<const N: usize>() -> [u8; N] {
    let mut out = [0u8; N];
    for i in 0..N {
        out[i] = i as u8;
    }
    out
}

fn blob(content: &[u8]) -> Blob {
    Blob { blob_len: 19 + content.len() as u32, header: "ssh-ed25519".to_string(), content: content.to_vec() }
}

#[test]
fn sha256_of_a_record() {
    // the bytes of `Newkeys` are the one byte 21
    let expected = hmac_sha256::Hash::hash(&[21]);
    assert_eq!(sha256(&Newkeys {}), Ok(expected));
    let request = ServiceRequest { service_name: "abc".to_string() };
    assert_eq!(sha256(&request), Ok(hmac_sha256::Hash::hash(&[5, 0, 0, 0, 3, b'a', b'b', b'c'])));
    // SHA-256 of the string "abc" in its wire form differs from that of the bare bytes
    assert_eq!(
        hex(&hmac_sha256::Hash::hash(b"abc")),
        "ba7816bf8f01cfea414140de5dae2223b00361a396177a9cb410ff61f20015ad"
    );
    assert_eq!(
        sha256(&vec![b'a', b'b', b'c']),
        Ok(hmac_sha256::Hash::hash(&[0, 0, 0, 3, b'a', b'b', b'c']))
    );
}

#[test]
fn xor_combines_every_byte() {
    let out = xor(counting::<64>(), 0x36);
    for i in 0..64 {
        assert_eq!(out[i], (i as u8) ^ 0x36);
    }
    assert_eq!(xor([0xff; 64], 0xff), [0; 64]);
}

#[test]
fn hmac_matches_known_values() {
    let mut h = Hmac::new(b"key");
    h.update(b"The quick brown fox ");
    h.update(b"jumps over the lazy dog");
    assert_eq!(hex(&h.finalize()), "f7bc83f430538424b13298e6aa6fb143ef4d59a14946175997479dbc2d1a3cd8");
    // a key longer than a block is hashed first
    let mut h = Hmac::new(&[b'k'; 100]);
    h.update(b"message");
    assert_eq!(hex(&h.finalize()), "1c28735416d320163f56f81bdbb83d651eed508d184e6b8b03662740a533293e");
}

#[test]
fn hmac_agrees_with_another_implementation() {
    for key_len in [0usize, 1, 32, 63, 64, 65, 200] {
        for message_len in [0usize, 1, 55, 56, 64, 300] {
            let key: Vec<u8> = (0..key_len).map(|i| (i * 7) as u8).collect();
            let message: Vec<u8> = (0..message_len).map(|i| (i * 13 + 1) as u8).collect();
            let expected = hmac_sha256::HMAC::mac(&message, &key);
            let h = Hmac::new(&key);
            assert_eq!(h.mac(&message), expected);
            // `mac` leaves the hash as it was
            assert_eq!(h.mac(&message), expected);
            let mut fed = Hmac::new(&key);
            fed.update(&message);
            assert_eq!(fed.finalize(), expected);
        }
    }
}

#[test]
fn cipher_matches_the_known_keystream() {
    let mut cipher = Cipher::new(counting::<32>(), counting::<16>());
    let mut data = vec![0u8; 48];
    assert_eq!(cipher.apply_keystream(&mut data), Ok(()));
    assert_eq!(
        hex(&data),
        "5a6e045708fb7196f02e553d02c3a69260f310d5c385585d5516fb5172e520cf\
         1c65775b3ac5cca4bbe10ba5e511c792"
    );
}

#[test]
fn cipher_keeps_its_position_across_calls() {
    let mut whole = Cipher::new(counting::<32>(), counting::<16>());
    let mut expected: Vec<u8> = (0..100u8).collect();
    whole.apply_keystream(&mut expected).unwrap();
    for split in [0usize, 1, 15, 16, 17, 33, 99, 100] {
        let mut pieces = Cipher::new(counting::<32>(), counting::<16>());
        let mut first: Vec<u8> = (0..split as u8).collect();
        let mut second: Vec<u8> = (split as u8..100).collect();
        pieces.apply_keystream(&mut first).unwrap();
        pieces.apply_keystream(&mut second).unwrap();
        first.extend(second);
        assert_eq!(first, expected);
    }
}

#[test]
fn cipher_peek_does_not_move() {
    let cipher = Cipher::new(counting::<32>(), counting::<16>());
    let mut a = vec![1, 2, 3, 4, 5];
    let mut b = vec![1, 2, 3, 4, 5];
    cipher.peek(&mut a);
    cipher.peek(&mut b);
    assert_eq!(a, b);
    assert!(a != vec![1, 2, 3, 4, 5]);
    // applying the same stretch of keystream again gives the data back
    cipher.peek(&mut a);
    assert_eq!(a, vec![1, 2, 3, 4, 5]);
}

#[test]
fn cipher_skip_moves_without_data() {
    let mut skipped = Cipher::new(counting::<32>(), counting::<16>());
    assert!(skipped.has_room(21));
    skipped.skip(21);
    let mut tail = vec![0u8; 11];
    skipped.apply_keystream(&mut tail).unwrap();
    let mut whole = Cipher::new(counting::<32>(), counting::<16>());
    let mut all = vec![0u8; 32];
    whole.apply_keystream(&mut all).unwrap();
    assert_eq!(tail, all[21..].to_vec());
}

#[test]
fn exchange_hash_matches_golden_value() {
    let client_kexinit = [&[20u8][..], &[0; 16], &[0, 0, 0, 17], b"curve25519-sha256"].concat();
    let server_kexinit = [&[20u8][..], &[1; 16], &[0, 0, 0, 17], b"curve25519-sha256"].concat();
    let mut secret = [5u8; 32];
    secret[0] = 0x80;
    let h = exchange_hash(
        b"SSH-2.0-tinyssh+1.0",
        b"SSH-2.0-OpenSSH_9.6",
        &client_kexinit,
        &server_kexinit,
        &blob(&[7; 32]),
        &[3; 32],
        &[4; 32],
        &secret,
    )
    .unwrap();
    assert_eq!(hex(&h), "4965d11b3e3611f5fceb22f2f2c30b8ba1d54f701f8fdc68acd20d6cf34565b6");
    // a shared secret that begins with zero bytes is hashed as the number it is
    let mut small = [5u8; 32];
    small[0] = 0;
    small[1] = 0;
    small[2] = 1;
    let h = exchange_hash(
        b"SSH-2.0-tinyssh+1.0",
        b"SSH-2.0-OpenSSH_9.6",
        &client_kexinit,
        &server_kexinit,
        &blob(&[7; 32]),
        &[3; 32],
        &[4; 32],
        &small,
    )
    .unwrap();
    assert_eq!(hex(&h), "8af032f24f34a10ee34d49f92321c79726140718902019a849bb5b7e8fe7bfe1");
}

#[test]
fn six_keys_match_golden_values() {
    let mut secret = vec![5u8; 32];
    secret[0] = 0x80;
    let h: Vec<u8> = (0..32)
        .map(|i| u8::from_str_radix(&"4965d11b3e3611f5fceb22f2f2c30b8ba1d54f701f8fdc68acd20d6cf34565b6"[2 * i..2 * i + 2], 16).unwrap())
        .collect();
    let keys = KeyExchangeOutput::new(UnsignedMpInt(secret), &h, &h).unwrap();
    assert_eq!(hex(&keys.c2s_iv), "a441db838186a6aa51568cd5cb190aaf");
    assert_eq!(hex(&keys.s2c_iv), "76774557bf36b36b90b50cb6b67972c5");
    assert_eq!(hex(&keys.c2s_key), "db0a5387ba836b140a44c4f53bfc1ff73d5a83ff7b696d4abed66ff18fc50fc7");
    assert_eq!(hex(&keys.s2c_key), "281def116838782cdfc17d6b4a870d86d1f8201e2c651ed67fd1086ae8467e7f");
    assert_eq!(hex(&keys.c2s_hmac), "529407e4cacb45ca330484b189ffbbc591b68b2d77443639eee91547979ece7a");
    assert_eq!(hex(&keys.s2c_hmac), "5a7f782ddd27ab72ad5ef3870bab349e7d8c06af53da07f606f0e1dbfac138e0");
}

#[test]
fn a_long_key_takes_several_digests() {
    let mut secret = vec![5u8; 32];
    secret[0] = 0x80;
    let mut dumped = vec![0, 0, 0, 33, 0];
    dumped.extend(secret);
    let h: Vec<u8> = (0..32)
        .map(|i| u8::from_str_radix(&"4965d11b3e3611f5fceb22f2f2c30b8ba1d54f701f8fdc68acd20d6cf34565b6"[2 * i..2 * i + 2], 16).unwrap())
        .collect();
    let long: [u8; 80] = KeyExchangeOutput::fill_array::<80>(&dumped, &h, &h, b'G');
    assert_eq!(
        hex(&long),
        "3d1f894c74baa9e7014c9d15febc867d14fe083ab8e8e73dbcccbf431fa98692\
         97b3ce08a029e5826d5c5b174ef67af35907f38257141fee861bb0b82db425b4\
         f2a692a4e656bc87367a24001cb50afd"
    );
    let short: [u8; 16] = KeyExchangeOutput::fill_array::<16>(&dumped, &h, &h, b'G');
    assert_eq!(&short[..], &long[..16]);
    let none: [u8; 0] = KeyExchangeOutput::fill_array::<0>(&dumped, &h, &h, b'G');
    assert_eq!(none.len(), 0);
}

#[test]
fn reply_is_taken_apart_by_size_and_format() {
    let good = KexdhReply {
        server_public_host_key: blob(&[1; 32]),
        server_ephemeral_pubkey: vec![2; 32],
        exchange_hash_signature: blob(&[3; 64]),
    };
    let keys = reply_keys(&good).unwrap();
    assert_eq!(keys.host_key, [1; 32]);
    assert_eq!(keys.server_ephemeral, [2; 32]);
    assert_eq!(keys.signature, [3; 64]);
    let mut short_host = good.clone();
    short_host.server_public_host_key = blob(&[1; 31]);
    assert_eq!(reply_keys(&short_host).err(), Some(Error::InvalidData));
    let mut long_key = good.clone();
    long_key.server_ephemeral_pubkey = vec![2; 33];
    assert_eq!(reply_keys(&long_key).err(), Some(Error::InvalidData));
    let mut short_signature = good.clone();
    short_signature.exchange_hash_signature = blob(&[3; 63]);
    assert_eq!(reply_keys(&short_signature).err(), Some(Error::InvalidData));
    let mut other_format = good.clone();
    other_format.server_public_host_key.header = "ssh-rsa".to_string();
    assert_eq!(reply_keys(&other_format).err(), Some(Error::Unimplemented));
    let mut other_signature = good.clone();
    other_signature.exchange_hash_signature.header = "rsa-sha2-256".to_string();
    assert_eq!(reply_keys(&other_signature).err(), Some(Error::Unimplemented));
}

#[test]
fn host_signature_is_verified() {
    let seed: [u8; 32] = counting::<32>();
    let public = [
        0x03, 0xa1, 0x07, 0xbf, 0xf3, 0xce, 0x10, 0xbe, 0x1d, 0x70, 0xdd, 0x18, 0xe7, 0x4b, 0xc0, 0x99, 0x67,
        0xe4, 0xd6, 0x30, 0x9b, 0xa5, 0x0d, 0x5f, 0x1d, 0xdc, 0x86, 0x64, 0x12, 0x55, 0x31, 0xb8,
    ];
    let mut pair = [0u8; 64];
    pair[..32].copy_from_slice(&seed);
    pair[32..].copy_from_slice(&public);
    let host = ed25519_dalek::Keypair::from_bytes(&pair).unwrap();
    let h = [0x42u8; 32];
    let signature = ed25519_dalek::Signer::sign(&host, &h).to_bytes();
    assert_eq!(verify_host(&public, &h, &signature), Ok(()));
    // a signature over another hash
    assert_eq!(verify_host(&public, &[0x43; 32], &signature), Err(Error::HostKeyNotVerifiable));
    // a bogus host key
    assert_eq!(verify_host(&[1; 32], &h, &signature), Err(Error::HostKeyNotVerifiable));
    assert_eq!(verify_host(&[0xff; 32], &h, &signature), Err(Error::HostKeyNotVerifiable));
    // a signature that is none
    let mut broken = signature;
    broken[63] |= 0xe0;
    assert_eq!(verify_host(&public, &h, &broken), Err(Error::HostKeyNotVerifiable));
    let mut flipped = signature;
    flipped[0] ^= 1;
    assert_eq!(verify_host(&public, &h, &flipped), Err(Error::HostKeyNotVerifiable));
}

#[test]
fn a_used_up_keystream_is_not_implemented() {
    let mut cipher = Cipher::new(counting::<32>(), counting::<16>());
    cipher.skip(usize::MAX - 3);
    if usize::BITS == 64 {
        assert!(cipher.has_room(3));
        assert!(!cipher.has_room(4));
        let mut data = vec![1, 2, 3, 4];
        assert_eq!(cipher.apply_keystream(&mut data), Err(Error::Unimplemented));
        assert_eq!(data, vec![1, 2, 3, 4]);
        // nothing was used up: three bytes still go
        let mut data = vec![1, 2, 3];
        assert_eq!(cipher.apply_keystream(&mut data), Ok(()));
        assert!(!cipher.has_room(1));
        assert!(cipher.has_room(0));
    }
}
