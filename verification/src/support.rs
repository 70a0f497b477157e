//! The few outside operations the machines rely on, each behind a contract
//! that restates what its documentation promises.

use core::str::FromStr;
use vstd::prelude::*;

verus! {

/// `<str as PartialEq>::eq`: two string slices compare equal exactly when
/// they hold the same characters.
#[verifier::external_body]
pub(crate) fn str_eq(a: &str, b: &str) -> (r: bool)
    ensures
        r == (a@ == b@),
{
    a == b
}

/// The two task names are different names.
pub proof fn lemma_task_names_differ()
    ensures
        "ssh"@ != "uart"@,
{
    reveal_strlit("ssh");
    reveal_strlit("uart");
    assert("ssh"@.len() != "uart"@.len());
}

#[verifier::external_type_specification]
#[verifier::external_body]
pub struct ExHeaplessString<const N: usize>(heapless::String<N>);

/// The characters a fixed-capacity password buffer holds.
pub uninterp spec fn password_chars(s: heapless::String<20>) -> Seq<char>;

/// `heapless::String::<20>::new`: a freshly made password buffer holds no
/// characters.
#[verifier::external_body]
pub(crate) fn empty_password() -> (s: heapless::String<20>)
    ensures
        password_chars(s) == Seq::<char>::empty(),
{
    heapless::String::new()
}

#[verifier::external_type_specification]
#[verifier::external_body]
pub struct ExSunsetError(sunset::Error);

/// The SSH error that carries the message `msg`.
pub uninterp spec fn custom_error(msg: Seq<char>) -> sunset::Error;

/// `sunset::Error::msg`: the SSH error carrying the message `m`
/// (`Error::Custom { msg: m }`).
#[verifier::external_body]
pub(crate) fn error_with_message(m: &'static str) -> (e: sunset::Error)
    ensures
        e == custom_error(m@),
{
    sunset::Error::msg(m)
}

#[verifier::external_type_specification]
#[verifier::external_body]
pub struct ExIpv4Addr(core::net::Ipv4Addr);

/// The IPv4 address the text `text` denotes, if any.
pub uninterp spec fn parsed_ipv4(text: Seq<char>) -> Option<core::net::Ipv4Addr>;

/// `<core::net::Ipv4Addr as FromStr>::from_str`: the address the text
/// denotes, or `None` when the text is not an IPv4 address; the result
/// depends on the text alone.
#[verifier::external_body]
pub(crate) fn parse_ipv4(text: &str) -> (r: Option<core::net::Ipv4Addr>)
    ensures
        r == parsed_ipv4(text@),
{
    core::net::Ipv4Addr::from_str(text).ok()
}

} // verus!
