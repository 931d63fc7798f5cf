//! Identifiers from the `uuid` crate.

use vstd::prelude::*;

verus! {

/// The hyphenated text of the name-based (version 5, SHA-1) UUID of `name`
/// in the URL namespace.
pub uninterp spec fn url_uuid_v5(name: Seq<u8>) -> Seq<char>;

/// Relies on `uuid::Uuid::new_v5` with `Uuid::NAMESPACE_URL`, and on
/// `Uuid`'s `Display`, which writes the 36-character hyphenated form. The
/// result depends on `name` alone.
#[verifier::external_body]
pub(crate) fn name_based_uuid(name: &[u8]) -> (r: String)
    ensures
        r@ == url_uuid_v5(name@),
        r@.len() == 36,
{
    uuid::Uuid::new_v5(&uuid::Uuid::NAMESPACE_URL, name).to_string()
}

/// Relies on `uuid::Uuid::new_v4` and `Uuid`'s `Display`: a random UUID in
/// its 36-character hyphenated form.
#[verifier::external_body]
pub(crate) fn random_uuid() -> (r: String)
    ensures
        r@.len() == 36,
{
    uuid::Uuid::new_v4().to_string()
}

} // verus!
