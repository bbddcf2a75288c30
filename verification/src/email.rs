//! E-mail addresses.

use vstd::prelude::*;

verus! {

/// Whether `lettre::Address` takes a string for an e-mail address.
pub uninterp spec fn is_email_address(s: Seq<char>) -> bool;

/// The `FromStr` of `lettre::Address` takes a string that is an e-mail address and
/// fails on any other. Which strings are addresses depends on the string alone; the
/// name [`is_email_address`] stands for it.
#[verifier::external_body]
pub(crate) fn parses_as_email_address(s: &str) -> (r: bool)
    ensures
        r == is_email_address(s@),
{
    s.parse::<lettre::Address>().is_ok()
}

} // verus!
