//! Mailbox address validation through the mail library's parser.

use vstd::prelude::*;

verus! {

#[verifier::external_type_specification]
#[verifier::external_body]
pub struct ExMailbox(lettre::message::Mailbox);

/// Whether a string is a syntactically valid mailbox address: names the
/// success of the mail library's mailbox parser.
pub uninterp spec fn is_mailbox(s: Seq<char>) -> bool;

/// Relies on `lettre::message::Mailbox`'s `FromStr`: whether a string parses
/// as a mailbox depends on its characters alone.
#[verifier::external_body]
pub(crate) fn parse_mailbox(s: &str) -> (r: Result<lettre::message::Mailbox, String>)
    ensures
        r is Ok <==> is_mailbox(s@),
{
    s.parse::<lettre::message::Mailbox>().map_err(|e| e.to_string())
}

} // verus!
