//! Fresh identifiers.

use vstd::prelude::*;

verus! {

/// A fresh random identifier: `uuid::Uuid::new_v4`, written in its
/// hyphenated form of 36 characters. Two calls may hand out any two such
/// texts.
#[verifier::external_body]
pub(crate) fn fresh_id() -> (r: String)
    ensures
        r@.len() == 36,
{
    uuid::Uuid::new_v4().to_string()
}

} // verus!
