use vstd::prelude::*;

verus! {

/// Whether `s` is a valid NEAR account id.
pub uninterp spec fn valid_account_id(s: Seq<char>) -> bool;

/// Relies on `near_sdk::AccountId::validate`: whether the text is a valid
/// account id, a question about the text alone.
#[verifier::external_body]
pub(crate) fn is_valid_account_id(s: &str) -> (r: bool)
    ensures
        r == valid_account_id(s@),
{
    near_sdk::AccountId::validate(s).is_ok()
}

} // verus!
