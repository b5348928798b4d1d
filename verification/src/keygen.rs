//! Key material in its persisted form.
//!
//! A key pair is kept as 128 hexadecimal digits: the 32 bytes of the secret
//! seed, then the 32 bytes of the public key.  The public key is handed out
//! as a line for an `authorized_keys` file.

use crate::crypto::{base64_encode, ed25519_generate, spec_base64};
use crate::error::Error;
use crate::parsedump::{
    chain, dump_bytes, dump_str, spec_dump_bytes, spec_dump_str, text_of_ascii,
};
use vstd::prelude::*;
use vstd::string::StringExecFns;
use vstd::utf8::encode_utf8;

verus! {

/// The length of a blob of the format `ssh-ed25519` whose content has
/// `content_len` bytes: two length fields, the eleven bytes of the name and
/// the content.
pub open spec fn spec_ed25519_blob_len(content_len: u32) -> int {
    4 + 11 + 4 + content_len
}

/// The length of a blob of the format `ssh-ed25519`.
pub fn ed25519_blob_len(content_len: u32) -> (len: u32)
    requires
        spec_ed25519_blob_len(content_len) <= u32::MAX,
    ensures
        len == spec_ed25519_blob_len(content_len),
{
    4 + 11 + 4 + content_len
}

/// The digit, in lower case, for a value below sixteen.
pub open spec fn spec_hex_digit(v: u8) -> u8 {
    if v < 10 {
        (48 + v) as u8
    } else {
        (87 + v) as u8
    }
}

/// The value of a hexadecimal digit, in either case.
pub open spec fn spec_hex_value(c: u8) -> Option<u8> {
    if 48 <= c <= 57 {
        Some((c - 48) as u8)
    } else if 97 <= c <= 102 {
        Some((c - 87) as u8)
    } else if 65 <= c <= 70 {
        Some((c - 55) as u8)
    } else {
        None
    }
}

/// The hexadecimal digits of `bytes`, two for each byte, the high half
/// first.
pub open spec fn spec_hex(bytes: Seq<u8>) -> Seq<u8> {
    Seq::new(
        2 * bytes.len(),
        |i: int|
            if i % 2 == 0 {
                spec_hex_digit(bytes[i / 2] / 16)
            } else {
                spec_hex_digit(bytes[i / 2] % 16)
            },
    )
}

/// Whether `hex` is made of pairs of hexadecimal digits.
pub open spec fn spec_is_hex(hex: Seq<u8>) -> bool {
    &&& hex.len() % 2 == 0
    &&& forall|i: int| 0 <= i < hex.len() ==> spec_hex_value(#[trigger] hex[i]) is Some
}

/// The bytes that pairs of hexadecimal digits stand for.
pub open spec fn spec_unhex(hex: Seq<u8>) -> Seq<u8> {
    Seq::new(
        hex.len() / 2,
        |i: int| (spec_hex_value(hex[2 * i]).unwrap() * 16 + spec_hex_value(hex[2 * i + 1]).unwrap()) as u8,
    )
}

/// The digits of bytes are hexadecimal, and stand for the bytes.
pub proof fn lemma_unhex_hex(bytes: Seq<u8>)
    ensures
        spec_is_hex(spec_hex(bytes)),
        spec_unhex(spec_hex(bytes)) == bytes,
        forall|i: int| 0 <= i < spec_hex(bytes).len() ==> spec_hex(bytes)[i] < 128,
{
    let hex = spec_hex(bytes);
    assert forall|i: int| 0 <= i < hex.len() implies spec_hex_value(#[trigger] hex[i]) is Some && hex[i]
        < 128 by {
        let b = bytes[i / 2];
        assert(b / 16 < 16 && b % 16 < 16);
    }
    assert forall|i: int| 0 <= i < bytes.len() implies spec_unhex(hex)[i] == bytes[i] by {
        let b = bytes[i];
        assert(hex[2 * i] == spec_hex_digit(b / 16));
        assert(hex[2 * i + 1] == spec_hex_digit(b % 16));
        assert(b / 16 < 16 && b % 16 < 16);
        assert(b == (b / 16) * 16 + b % 16);
    }
    assert(spec_unhex(hex) =~= bytes);
}

/// The digit for a value below sixteen.
fn hex_digit(v: u8) -> (c: u8)
    requires
        v < 16,
    ensures
        c == spec_hex_digit(v),
{
    if v < 10 {
        48 + v
    } else {
        87 + v
    }
}

/// The value of a hexadecimal digit.
fn hex_value(c: u8) -> (v: Option<u8>)
    ensures
        v == spec_hex_value(c),
{
    if 48 <= c && c <= 57 {
        Some(c - 48)
    } else if 97 <= c && c <= 102 {
        Some(c - 87)
    } else if 65 <= c && c <= 70 {
        Some(c - 55)
    } else {
        None
    }
}

/// Writes `bytes` as hexadecimal digits in lower case.
pub fn encode_hex(bytes: &[u8]) -> (hex: String)
    requires
        bytes@.len() * 2 <= usize::MAX,
    ensures
        encode_utf8(hex@) == spec_hex(bytes@),
{
    let mut digits: Vec<u8> = Vec::new();
    let mut i: usize = 0;
    while i < bytes.len()
        invariant
            i <= bytes.len(),
            digits@ == spec_hex(bytes@.take(i as int)),
        decreases bytes.len() - i,
    {
        let b = bytes[i];
        digits.push(hex_digit(b / 16));
        digits.push(hex_digit(b % 16));
        i += 1;
        assert(digits@ =~= spec_hex(bytes@.take(i as int)));
    }
    assert(bytes@.take(i as int) =~= bytes@);
    proof {
        lemma_unhex_hex(bytes@);
    }
    text_of_ascii(digits.as_slice())
}

/// Reads `N` bytes from `2 * N` hexadecimal digits.  There is no result for
/// a text of another length or with another character in it.
pub fn decode_hex<const N: usize>(hex: &str) -> (r: Option<[u8; N]>)
    ensures
        r is Some <==> encode_utf8(hex@).len() == 2 * N && spec_is_hex(encode_utf8(hex@)),
        r matches Some(bytes) ==> bytes@ == spec_unhex(encode_utf8(hex@)),
{
    let digits = hex.as_bytes();
    if digits.len() % 2 != 0 || digits.len() / 2 != N {
        return None;
    }
    let mut out = [0u8; N];
    let mut i: usize = 0;
    while i < N
        invariant
            i <= N,
            digits@.len() == 2 * N,
            2 * N <= usize::MAX,
            digits@ == encode_utf8(hex@),
            forall|j: int| 0 <= j < 2 * i ==> spec_hex_value(#[trigger] digits@[j]) is Some,
            forall|j: int| 0 <= j < i ==> out@[j] == spec_unhex(digits@)[j],
        decreases N - i,
    {
        assert(2 * i + 1 < digits@.len());
        let high = match hex_value(digits[2 * i]) {
            Some(v) => v,
            None => {
                assert(spec_hex_value(digits@[2 * i as int]) is None);
                return None;
            },
        };
        let low = match hex_value(digits[2 * i + 1]) {
            Some(v) => v,
            None => {
                assert(spec_hex_value(digits@[2 * i as int + 1]) is None);
                return None;
            },
        };
        out[i] = high * 16 + low;
        i += 1;
        assert forall|j: int| 0 <= j < 2 * i implies spec_hex_value(#[trigger] digits@[j]) is Some by {
            if j >= 2 * i - 2 {
                assert(j == 2 * (i - 1) || j == 2 * (i - 1) + 1);
            }
        }
    }
    assert(out@ =~= spec_unhex(digits@));
    Some(out)
}

/// Makes a new Ed25519 key pair and returns it as 128 hexadecimal digits.
pub fn create_ed25519_keypair() -> (hex: String)
    ensures
        exists|keypair: Seq<u8>| keypair.len() == 64 && encode_utf8(hex@) == #[trigger] spec_hex(keypair),
{
    let keypair = ed25519_generate();
    let hex = encode_hex(keypair.as_slice());
    assert(keypair@.len() == 64 && encode_utf8(hex@) == spec_hex(keypair@));
    hex
}

/// The public key blob of a key pair: the name `ssh-ed25519` and the second
/// half of the pair, each as a length-prefixed field.
pub open spec fn spec_public_blob(keypair: Seq<u8>) -> Result<Seq<u8>, Error> {
    chain(spec_dump_str("ssh-ed25519"@), spec_dump_bytes(keypair.skip(32)))
}

/// The line that lets a key pair in, for an `authorized_keys` file: the name
/// `ssh-ed25519`, the public key blob in base64 and the user name, with one
/// space between them and a line feed at the end.
pub open spec fn spec_authorized_line(blob: Seq<u8>, username: Seq<char>) -> Seq<char> {
    "ssh-ed25519 "@ + spec_base64(blob) + " "@ + username + "\n"@
}

/// Writes the public key of a key pair in hexadecimal digits as a line for
/// an `authorized_keys` file.  Fails with `InvalidKeypair` unless
/// `hex_keypair` is 128 hexadecimal digits.
pub fn dump_ed25519_pk_openssh(hex_keypair: &str, username: &str) -> (r: Result<String, Error>)
    ensures
        ({
            let hex = encode_utf8(hex_keypair@);
            if hex.len() == 128 && spec_is_hex(hex) {
                r matches Ok(line) && spec_public_blob(spec_unhex(hex)) matches Ok(blob) && line@
                    == spec_authorized_line(blob, username@)
            } else {
                r == Err::<String, Error>(Error::InvalidKeypair)
            }
        }),
{
    let keypair = match decode_hex::<64>(hex_keypair) {
        Some(keypair) => keypair,
        None => return Err(Error::InvalidKeypair),
    };
    let public = vstd::slice::slice_subrange(keypair.as_slice(), 32, 64);
    assert(public@ =~= keypair@.skip(32));
    let mut blob: Vec<u8> = Vec::new();
    proof {
        reveal(spec_dump_bytes);
        reveal(spec_dump_str);
        reveal_strlit("ssh-ed25519");
        vstd::utf8::is_ascii_chars_encode_utf8("ssh-ed25519"@);
    }
    dump_str("ssh-ed25519", &mut blob)?;
    dump_bytes(public, &mut blob)?;
    let mut line = String::from_str("ssh-ed25519 ");
    let encoded = base64_encode(blob.as_slice());
    line.append(encoded.as_str());
    line.append(" ");
    line.append(username);
    line.append("\n");
    Ok(line)
}

} // verus!
