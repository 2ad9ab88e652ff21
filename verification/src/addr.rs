//! Addresses, and validation against the host's address-format rules.

use cosmwasm_std::Api;
use vstd::prelude::*;

verus! {

/// Whether the host's address-format rules accept the string. This names the
/// verdict of the host validation library; nothing in this crate states what
/// the verdict is on given characters.
pub uninterp spec fn valid_addr(s: Seq<char>) -> bool;

/// Relies on `cosmwasm_std::testing::MockApi::addr_validate`, called on the
/// `Default` api: its verdict is a function of the input string alone, and on
/// success it returns `Addr::unchecked(input)`, that is, exactly the input.
#[verifier::external_body]
pub(crate) fn validate_address(input: &str) -> (r: Option<String>)
    ensures
        r is Some <==> valid_addr(input@),
        r matches Some(a) ==> a@ == input@,
{
    match cosmwasm_std::testing::MockApi::default().addr_validate(input) {
        Ok(validated) => Some(validated.into_string()),
        Err(_) => None,
    }
}

/// A human-readable actor address. Construction does not itself validate;
/// the handlers validate inputs before an `Addr` reaches the stored config.
#[derive(Clone, Debug, PartialEq, Eq)]
pub struct Addr(pub String);

impl View for Addr {
    type V = Seq<char>;

    open spec fn view(&self) -> Seq<char> {
        self.0@
    }
}

impl Addr {
    /// Wraps a string as an address without validating it.
    pub fn unchecked(input: String) -> (a: Addr)
        ensures
            a@ == input@,
    {
        Addr(input)
    }

    pub fn as_str(&self) -> (s: &str)
        ensures
            s@ == self@,
    {
        self.0.as_str()
    }

    pub fn into_string(self) -> (s: String)
        ensures
            s@ == self@,
    {
        self.0
    }
}

} // verus!
