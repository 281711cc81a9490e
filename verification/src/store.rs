//! Credential store adapter.
//!
//! Maps the three logical operations — fetch, persist, erase — keyed by a
//! registry identity onto requests against the host's credential facility,
//! and translates the facility's outcomes into the library's error taxonomy.
//! The facility calls themselves are made by the embedding process; this
//! module builds the exact request that is handed to the facility and decides
//! the result for every outcome the facility can report.

use vstd::prelude::*;
use vstd::utf8::{decode_utf8, encode_utf8, valid_utf8};
use vstd::string::StrSliceExecFns;
use crate::Error;
use crate::wide::{
    comment_label_no_nul, comment_plain_no_nul, encode_utf16, encode_utf16_onto,
    lemma_encode_utf16_concat, lemma_encode_utf16_no_nul, target_name, target_name_spec,
    wellformed_wide, wstr,
};

verus! {

/// The facility's code for "no record with this key exists".
pub const ERROR_NOT_FOUND: u32 = 1168;

/// Durability tier requested for stored records: always the broadest
/// local-machine persistence the facility offers.
#[derive(Clone, Copy, PartialEq, Eq, Structural, Debug)]
pub enum PersistScope {
    LocalMachine,
}

/// A record as handed to the credential facility: a nul-terminated wide key,
/// a nul-terminated wide label, the raw secret bytes, and a persistence tier.
pub struct CredentialRecord {
    pub target: Vec<u16>,
    pub comment: Vec<u16>,
    pub secret: Vec<u8>,
    pub persist: PersistScope,
}

/// How a successful erase came about: a record was removed, or none existed
/// and the desired end state already held.
#[derive(Clone, Copy, PartialEq, Eq, Structural, Debug)]
pub enum EraseOutcome {
    Removed,
    NotFound,
}

/// The label of a stored record: the supplied registry name, or a fixed
/// default.
pub open spec fn comment_spec(name: Option<Seq<char>>) -> Seq<u16> {
    match name {
        Option::Some(n) => encode_utf16("Cargo registry token for "@ + n).push(0u16),
        Option::None => encode_utf16("Cargo registry token"@).push(0u16),
    }
}

/// The view of an optional label argument.
pub open spec fn name_view(name: Option<&str>) -> Option<Seq<char>> {
    match name {
        Option::Some(n) => Option::Some(n@),
        Option::None => Option::None,
    }
}

/// The result of a fetch, for each outcome of the facility's read: a refusal
/// is a store-access error, secret bytes that are not UTF-8 are an encoding
/// error, and valid bytes decode to the token.
pub open spec fn spec_fetch_result(read: Result<Seq<u8>, u32>) -> Result<Seq<char>, Error> {
    match read {
        Result::Ok(bytes) => if valid_utf8(bytes) {
            Result::Ok(decode_utf8(bytes))
        } else {
            Result::Err(Error::Encoding)
        },
        Result::Err(code) => Result::Err(Error::StoreAccess { code }),
    }
}

/// The result of a persist, for each outcome of the facility's write.
pub open spec fn spec_store_result(write: Result<(), u32>) -> Result<(), Error> {
    match write {
        Result::Ok(_) => Result::Ok(()),
        Result::Err(code) => Result::Err(Error::StoreAccess { code }),
    }
}

/// The result of an erase, for each outcome of the facility's delete.
/// "No such record" is benign: the desired end state — no stored secret —
/// already holds.
pub open spec fn spec_erase_result(delete: Result<(), u32>) -> Result<EraseOutcome, Error> {
    match delete {
        Result::Ok(_) => Result::Ok(EraseOutcome::Removed),
        Result::Err(code) => if code == ERROR_NOT_FOUND {
            Result::Ok(EraseOutcome::NotFound)
        } else {
            Result::Err(Error::StoreAccess { code })
        },
    }
}

/// Relies on String::from_utf8: it succeeds exactly on valid UTF-8 input and
/// returns the string those bytes encode.
#[verifier::external_body]
fn utf8_to_string(bytes: Vec<u8>) -> (r: Option<String>)
    ensures
        r is Some <==> valid_utf8(bytes@),
        r matches Some(s) ==> s@ == decode_utf8(bytes@),
{
    String::from_utf8(bytes).ok()
}

/// Decides a fetch from the facility's read outcome: `Ok` with the secret
/// bytes read, or `Err` with the facility's error code.
pub fn fetch_result(read: Result<Vec<u8>, u32>) -> (r: Result<String, Error>)
    ensures
        ({
            let expect = spec_fetch_result(
                match read {
                    Result::Ok(b) => Result::<Seq<u8>, u32>::Ok(b@),
                    Result::Err(code) => Result::<Seq<u8>, u32>::Err(code),
                },
            );
            match r {
                Result::Ok(token) => expect == Result::<Seq<char>, Error>::Ok(token@),
                Result::Err(e) => expect == Result::<Seq<char>, Error>::Err(e),
            }
        }),
{
    match read {
        Result::Ok(bytes) => match utf8_to_string(bytes) {
            Option::Some(token) => Result::Ok(token),
            Option::None => Result::Err(Error::Encoding),
        },
        Result::Err(code) => Result::Err(Error::StoreAccess { code }),
    }
}

/// Builds the record that persists `token` under `index_url`: the namespaced
/// key, the label (the supplied name or the fixed default), the token's exact
/// bytes, and the broadest local persistence tier.
pub fn store_request(index_url: &str, token: &str, name: Option<&str>) -> (r: CredentialRecord)
    requires
        !index_url@.contains('\0'),
        name matches Some(n) ==> !n@.contains('\0'),
    ensures
        r.target@ == target_name_spec(index_url@),
        wellformed_wide(r.target@),
        r.comment@ == comment_spec(name_view(name)),
        wellformed_wide(r.comment@),
        r.secret@ == encode_utf8(token@),
        r.persist == PersistScope::LocalMachine,
{
    let target = target_name(index_url);
    let comment = match name {
        Option::Some(n) => {
            let mut out: Vec<u16> = Vec::new();
            encode_utf16_onto(&mut out, "Cargo registry token for ");
            encode_utf16_onto(&mut out, n);
            out.push(0);
            proof {
                let p = "Cargo registry token for "@;
                lemma_encode_utf16_concat(p, n@);
                assert(out@ =~= comment_spec(name_view(name)));
                comment_label_no_nul();
                assert(!(p + n@).contains('\0')) by {
                    if (p + n@).contains('\0') {
                        let j = choose|j: int| 0 <= j < (p + n@).len() && (p + n@)[j] == '\0';
                        if j < p.len() {
                            assert(p[j] == '\0');
                        } else {
                            assert(n@[j - p.len()] == '\0');
                        }
                    }
                }
                lemma_encode_utf16_no_nul(p + n@);
            }
            out
        },
        Option::None => {
            proof {
                comment_plain_no_nul();
            }
            wstr("Cargo registry token")
        },
    };
    let secret = token.as_bytes_vec();
    CredentialRecord { target, comment, secret, persist: PersistScope::LocalMachine }
}

/// Decides a persist from the facility's write outcome.
pub fn store_result(write: Result<(), u32>) -> (r: Result<(), Error>)
    ensures
        r == spec_store_result(write),
{
    match write {
        Result::Ok(_) => Result::Ok(()),
        Result::Err(code) => Result::Err(Error::StoreAccess { code }),
    }
}

/// Decides an erase from the facility's delete outcome. A "not found" report
/// is normalized to success: the caller asked for a state — no stored
/// secret — which already holds.
pub fn erase_result(delete: Result<(), u32>) -> (r: Result<EraseOutcome, Error>)
    ensures
        r == spec_erase_result(delete),
{
    match delete {
        Result::Ok(_) => Result::Ok(EraseOutcome::Removed),
        Result::Err(code) => if code == ERROR_NOT_FOUND {
            Result::Ok(EraseOutcome::NotFound)
        } else {
            Result::Err(Error::StoreAccess { code })
        },
    }
}

/// Idempotence of erase: an erase succeeds both when the facility removes a
/// record and when it reports that none exists. Erasing an identity with no
/// stored record therefore succeeds, and erasing twice in a row succeeds both
/// times — the second delete finds no record, which is again success.
pub proof fn lemma_erase_idempotent(delete: Result<(), u32>)
    requires
        delete == Result::<(), u32>::Ok(()) || delete == Result::<(), u32>::Err(ERROR_NOT_FOUND),
    ensures
        spec_erase_result(delete) is Ok,
{
}

/// Round trip: a record built by [`store_request`] for a token carries
/// exactly the token's UTF-8 bytes as its secret, and a fetch whose read
/// returns those bytes yields exactly the token. So storing a token and
/// fetching it back — with the facility returning the stored secret —
/// returns the token unchanged.
pub proof fn lemma_round_trip(token: Seq<char>)
    ensures
        spec_fetch_result(Result::Ok(encode_utf8(token))) == Result::<Seq<char>, Error>::Ok(token),
{
    vstd::utf8::encode_utf8_valid_utf8(token);
    vstd::utf8::encode_utf8_decode_utf8(token);
}

} // verus!
