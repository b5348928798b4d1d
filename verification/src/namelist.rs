//! Name lists: names separated by commas, as algorithm negotiation uses them.
//!
//! A list is read as bytes.  No byte of a multi-byte UTF-8 character is a
//! comma, so splitting the bytes at commas splits the text at commas.

use crate::error::Error;
use crate::messages::{Kexinit, KexinitView};
use crate::parsedump::bytes_eq;
use vstd::prelude::*;
use vstd::slice::slice_subrange;
use vstd::utf8::encode_utf8;

verus! {

/// The byte that separates the names of a list.
pub const COMMA: u8 = 44;

/// Whether `name` stands in `list` from position `i` on, as a whole item:
/// a separator or an end of the list on either side.
pub open spec fn item_at(list: Seq<u8>, name: Seq<u8>, i: int) -> bool {
    &&& 0 <= i
    &&& i + name.len() <= list.len()
    &&& list.subrange(i, i + name.len()) == name
    &&& (i == 0 || list[i - 1] == COMMA)
    &&& (i + name.len() == list.len() || list[i + name.len()] == COMMA)
}

/// Whether `name` is one of the items of `list`.  A name with a comma in it
/// is no item of any list.
pub open spec fn spec_list_has(list: Seq<u8>, name: Seq<u8>) -> bool {
    &&& forall|k: int| 0 <= k < name.len() ==> name[k] != COMMA
    &&& exists|i: int| #[trigger] item_at(list, name, i)
}

/// Whether `name` is one of the items of `list`.
pub fn list_has(list: &[u8], name: &[u8]) -> (found: bool)
    ensures
        found == spec_list_has(list@, name@),
{
    let mut k: usize = 0;
    while k < name.len()
        invariant
            k <= name.len(),
            forall|j: int| 0 <= j < k ==> name@[j] != COMMA,
        decreases name.len() - k,
    {
        if name[k] == COMMA {
            return false;
        }
        k += 1;
    }
    let mut start: usize = 0;
    loop
        invariant
            start <= list.len(),
            start == 0 || list@[start - 1] == COMMA,
            forall|j: int| 0 <= j < name.len() ==> name@[j] != COMMA,
            forall|i: int| 0 <= i < start ==> !item_at(list@, name@, i),
        decreases list.len() - start,
    {
        let mut end: usize = start;
        while end < list.len() && list[end] != COMMA
            invariant
                start <= end <= list.len(),
                forall|j: int| start <= j < end ==> list@[j] != COMMA,
            decreases list.len() - end,
        {
            end += 1;
        }
        let item = slice_subrange(list, start, end);
        if bytes_eq(item, name) {
            assert(item_at(list@, name@, start as int));
            return true;
        }
        proof {
            // No item begins inside this one, and this one is not the name.
            assert forall|i: int| start <= i <= end implies !item_at(list@, name@, i) by {
                if item_at(list@, name@, i) {
                    if i > start {
                        assert(list@[i - 1] != COMMA);
                    } else {
                        let n = name@.len() as int;
                        if start + n < end {
                            assert(list@[start + n] != COMMA);
                        } else if start + n > end {
                            assert(list@.subrange(i, i + n)[end - start] == list@[end as int]);
                            assert(name@[end - start] != COMMA);
                        } else {
                            assert(list@.subrange(start as int, end as int) == name@);
                        }
                    }
                }
            }
        }
        if end == list.len() {
            assert forall|i: int| !item_at(list@, name@, i) by {}
            return false;
        }
        start = end + 1;
    }
}

/// Whether the text `name` is one of the items of the text `list`.
pub fn text_list_has(list: &str, name: &str) -> (found: bool)
    ensures
        found == spec_list_has(encode_utf8(list@), encode_utf8(name@)),
{
    list_has(list.as_bytes(), name.as_bytes())
}

/// Whether each of the eight algorithm lists of `server` has the name that
/// `client` holds in the same place.  The lists of languages are not
/// compared.
pub open spec fn spec_compatible(server: KexinitView, client: KexinitView) -> bool {
    &&& spec_list_has(encode_utf8(server.kex_algorithms), encode_utf8(client.kex_algorithms))
    &&& spec_list_has(
        encode_utf8(server.server_host_key_algorithms),
        encode_utf8(client.server_host_key_algorithms),
    )
    &&& spec_list_has(
        encode_utf8(server.encryption_algorithms_client_to_server),
        encode_utf8(client.encryption_algorithms_client_to_server),
    )
    &&& spec_list_has(
        encode_utf8(server.encryption_algorithms_server_to_client),
        encode_utf8(client.encryption_algorithms_server_to_client),
    )
    &&& spec_list_has(
        encode_utf8(server.mac_algorithms_client_to_server),
        encode_utf8(client.mac_algorithms_client_to_server),
    )
    &&& spec_list_has(
        encode_utf8(server.mac_algorithms_server_to_client),
        encode_utf8(client.mac_algorithms_server_to_client),
    )
    &&& spec_list_has(
        encode_utf8(server.compression_algorithms_client_to_server),
        encode_utf8(client.compression_algorithms_client_to_server),
    )
    &&& spec_list_has(
        encode_utf8(server.compression_algorithms_server_to_client),
        encode_utf8(client.compression_algorithms_server_to_client),
    )
}

/// Fails with `NoAlgorithmOverlap` unless `name` is one of the items of
/// `list`.
fn find(list: &str, name: &str) -> (r: Result<(), Error>)
    ensures
        spec_list_has(encode_utf8(list@), encode_utf8(name@)) ==> r is Ok,
        !spec_list_has(encode_utf8(list@), encode_utf8(name@)) ==> r == Err::<(), Error>(
            Error::NoAlgorithmOverlap,
        ),
{
    if text_list_has(list, name) {
        Ok(())
    } else {
        Err(Error::NoAlgorithmOverlap)
    }
}

impl Kexinit {
    /// Checks the lists of a server against the names that the client
    /// offers.  Fails with `NoAlgorithmOverlap` unless every algorithm list
    /// of `self` has the client's name.
    pub fn check_compat(&self, client: &Kexinit) -> (r: Result<(), Error>)
        ensures
            spec_compatible(self@, client@) ==> r is Ok,
            !spec_compatible(self@, client@) ==> r == Err::<(), Error>(Error::NoAlgorithmOverlap),
    {
        find(self.kex_algorithms.as_str(), client.kex_algorithms.as_str())?;
        find(self.server_host_key_algorithms.as_str(), client.server_host_key_algorithms.as_str())?;
        find(
            self.encryption_algorithms_client_to_server.as_str(),
            client.encryption_algorithms_client_to_server.as_str(),
        )?;
        find(
            self.encryption_algorithms_server_to_client.as_str(),
            client.encryption_algorithms_server_to_client.as_str(),
        )?;
        find(self.mac_algorithms_client_to_server.as_str(), client.mac_algorithms_client_to_server.as_str())?;
        find(self.mac_algorithms_server_to_client.as_str(), client.mac_algorithms_server_to_client.as_str())?;
        find(
            self.compression_algorithms_client_to_server.as_str(),
            client.compression_algorithms_client_to_server.as_str(),
        )?;
        find(
            self.compression_algorithms_server_to_client.as_str(),
            client.compression_algorithms_server_to_client.as_str(),
        )
    }
}

} // verus!
