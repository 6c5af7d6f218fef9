//! The on-disk binary layout of a document, and its encoder and decoder.
//!
//! A document is laid out as three fields in fixed order with no padding:
//! the byte length of the name's UTF-8 form as eight little-endian bytes,
//! the name's UTF-8 bytes themselves, and the age as four little-endian
//! bytes. Every well-formed in-memory document encodes successfully;
//! decoding reads a document back from the front of such an encoding and
//! rejects anything else.

use vstd::bytes::*;
use vstd::prelude::*;
use vstd::slice::*;
use vstd::string::StringSliceAdditionalSpecFns;
use vstd::string::StrSliceExecFns;
use vstd::utf8::*;

use crate::data::{Person, SaveData};

verus! {

/// The encoding of a document with the given name and age: an 8-byte
/// little-endian length prefix, the name's UTF-8 bytes, then the age as
/// four little-endian bytes.
pub open spec fn spec_encode(name: Seq<char>, age: u32) -> Seq<u8> {
    spec_u64_to_le_bytes(encode_utf8(name).len() as u64) + encode_utf8(name)
        + spec_u32_to_le_bytes(age)
}

/// What a byte sequence decodes to: the document read from its front, or
/// nothing when the bytes are malformed. The length prefix must fit
/// within the input and the name bytes must be valid UTF-8; bytes past
/// the age are ignored, as the decoder of the bincode crate, whose
/// legacy fixed-integer little-endian layout this format matches,
/// ignores them too.
pub open spec fn spec_decode(b: Seq<u8>) -> Option<(Seq<char>, u32)> {
    if b.len() < 12 {
        None
    } else {
        let n: int = spec_u64_from_le_bytes(b.subrange(0, 8)) as int;
        if b.len() >= 12 + n && valid_utf8(b.subrange(8, 8 + n)) {
            Some(
                (
                    decode_utf8(b.subrange(8, 8 + n)),
                    spec_u32_from_le_bytes(b.subrange(8 + n, 12 + n)),
                ),
            )
        } else {
            None
        }
    }
}

/// Round-trip law: decoding the encoding of any document yields exactly
/// that document's fields. The bound on the name's byte length is a
/// machine limit; every name held in memory satisfies it.
pub proof fn lemma_encode_decode(name: Seq<char>, age: u32)
    requires
        encode_utf8(name).len() <= u64::MAX,
    ensures
        spec_decode(spec_encode(name, age)) == Some((name, age)),
{
    lemma_auto_spec_u64_to_from_le_bytes();
    lemma_auto_spec_u32_to_from_le_bytes();
    encode_utf8_valid_utf8(name);
    encode_utf8_decode_utf8(name);
    let nb = encode_utf8(name);
    let b = spec_encode(name, age);
    assert(b.subrange(0, 8) =~= spec_u64_to_le_bytes(nb.len() as u64));
    assert(b.len() == 12 + nb.len());
    assert(b.subrange(8, 8 + nb.len() as int) =~= nb);
    assert(b.subrange(8 + nb.len() as int, b.len() as int) =~= spec_u32_to_le_bytes(age));
}

/// Relies on `String::from_utf8`: it returns `Ok` exactly when the input
/// bytes are valid UTF-8, and the returned string's characters are the
/// decoding of those bytes.
#[verifier::external_body]
fn utf8_to_string(bytes: Vec<u8>) -> (r: Option<String>)
    ensures
        r is Some <==> valid_utf8(bytes@),
        r matches Some(s) ==> s@ == decode_utf8(bytes@),
{
    String::from_utf8(bytes).ok()
}

/// Serializes a document into its on-disk byte encoding. Succeeds for
/// every well-formed in-memory document.
pub fn encode(save: &SaveData) -> (r: Vec<u8>)
    ensures
        r@ == spec_encode(save.person.name@, save.person.age),
        r@.len() == 12 + encode_utf8(save.person.name@).len(),
        encode_utf8(save.person.name@).len() <= u64::MAX,
{
    proof {
        lemma_auto_spec_u64_to_from_le_bytes();
        lemma_auto_spec_u32_to_from_le_bytes();
    }
    let mut name_bytes: Vec<u8> = save.person.name.as_str().as_bytes_vec();
    let mut out: Vec<u8> = u64_to_le_bytes(name_bytes.len() as u64);
    out.append(&mut name_bytes);
    let mut age_bytes: Vec<u8> = u32_to_le_bytes(save.person.age);
    out.append(&mut age_bytes);
    proof {
        assert(out@ =~= spec_encode(save.person.name@, save.person.age));
    }
    out
}

/// Parses the on-disk byte encoding. Returns the document read from the
/// front of the bytes, or `None` when they are malformed: too short, a
/// length prefix the input cannot satisfy, or name bytes that are not
/// valid UTF-8. Bytes past the age are ignored.
pub fn decode(bytes: &[u8]) -> (r: Option<SaveData>)
    ensures
        r matches Some(d) ==> spec_decode(bytes@) == Some((d.person.name@, d.person.age)),
        r is None ==> spec_decode(bytes@) is None,
{
    if bytes.len() < 12 {
        return None;
    }
    let prefix: u64 = u64_from_le_bytes(slice_subrange(bytes, 0, 8));
    let room: usize = bytes.len() - 12;
    if prefix > room as u64 {
        return None;
    }
    let name_len: usize = prefix as usize;
    let name_slice: &[u8] = slice_subrange(bytes, 8, 8 + name_len);
    let name_vec: Vec<u8> = slice_to_vec(name_slice);
    match utf8_to_string(name_vec) {
        None => None,
        Some(name) => {
            let age: u32 = u32_from_le_bytes(slice_subrange(bytes, 8 + name_len, 12 + name_len));
            Some(SaveData { person: Person { name, age } })
        },
    }
}

} // verus!
