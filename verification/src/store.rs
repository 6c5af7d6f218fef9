//! The load policy over raw file contents, and the demo mutation.
//!
//! The caller reads the save file itself and hands this module the
//! outcome: `None` when no file exists, or the bytes it read. Loading
//! never fails: an absent file or undecodable bytes yield the
//! all-defaults document by design, so corrupt save data resets the
//! record instead of crashing the run.

use vstd::bytes::*;
use vstd::prelude::*;
use vstd::utf8::*;

use crate::codec::{decode, lemma_encode_decode, spec_decode, spec_encode};
use crate::data::{save_data_is_default, SaveData};

verus! {

/// What loading yields from the raw outcome of reading the save file:
/// the decoded name and age, or the defaults (empty name, age zero) when
/// the file was absent or its bytes decode to nothing.
pub open spec fn spec_load(contents: Option<Seq<u8>>) -> (Seq<char>, u32) {
    match contents {
        Option::None => (Seq::<char>::empty(), 0u32),
        Option::Some(b) => match spec_decode(b) {
            Option::Some(p) => p,
            Option::None => (Seq::<char>::empty(), 0u32),
        },
    }
}

/// The view of the raw read outcome: the bytes read, if any.
pub open spec fn contents_view(contents: Option<&[u8]>) -> Option<Seq<u8>> {
    match contents {
        Option::None => None,
        Option::Some(b) => Some(b@),
    }
}

/// Reconstructs the document from the outcome of reading the save file.
/// An absent file (`None`) or bytes from which no document can be read
/// yield the all-defaults document; decodable bytes yield exactly the
/// document they hold. This function never fails.
pub fn load_from_bytes(contents: Option<&[u8]>) -> (r: SaveData)
    ensures
        (r.person.name@, r.person.age) == spec_load(contents_view(contents)),
        contents is None ==> save_data_is_default(r),
        (contents matches Some(b) && spec_decode(b@) is None) ==> save_data_is_default(r),
{
    match contents {
        None => SaveData::default(),
        Some(bytes) => match decode(bytes) {
            Some(d) => d,
            None => SaveData::default(),
        },
    }
}

/// Save-then-load: loading a file that holds exactly the encoding of a
/// document yields that document, whatever the file held before the
/// save (a save fully overwrites prior content).
pub proof fn lemma_save_then_load(name: Seq<char>, age: u32)
    requires
        encode_utf8(name).len() <= u64::MAX,
    ensures
        spec_load(Some(spec_encode(name, age))) == (name, age),
{
    lemma_encode_decode(name, age);
}

/// Idempotence: loading, mutating nothing, saving, and loading again
/// yields the same document as the first load, whatever the file held.
pub proof fn lemma_load_save_load(contents: Option<Seq<u8>>)
    ensures
        spec_load(Some(spec_encode(spec_load(contents).0, spec_load(contents).1)))
            == spec_load(contents),
{
    let (name, age) = spec_load(contents);
    match contents {
        Option::None => {
            assert(encode_utf8(name).len() == 0);
        },
        Option::Some(b) => match spec_decode(b) {
            Option::Some(p) => {
                let n: int = spec_u64_from_le_bytes(b.subrange(0, 8)) as int;
                let name_bytes = b.subrange(8, 8 + n);
                decode_utf8_encode_utf8(name_bytes);
                assert(encode_utf8(name) == name_bytes);
            },
            Option::None => {
                assert(encode_utf8(name).len() == 0);
            },
        },
    }
    lemma_save_then_load(name, age);
}

/// Flips the record between the two demo states: a record named "Tom"
/// becomes Jim aged 28; any other record becomes Tom aged 32.
pub fn toggle(save: &mut SaveData)
    ensures
        old(save).person.name@ == "Tom"@ ==> final(save).person.name@ == "Jim"@
            && final(save).person.age == 28,
        old(save).person.name@ != "Tom"@ ==> final(save).person.name@ == "Tom"@
            && final(save).person.age == 32,
{
    let tom: String = "Tom".to_owned();
    if save.person.name == tom {
        save.person.name = "Jim".to_owned();
        save.person.age = 28;
    } else {
        save.person.name = "Tom".to_owned();
        save.person.age = 32;
    }
}

} // verus!
