//! What the two trigger sources tell whoever asked, once a relay has ended.

use crate::relay::Outcome;
use vstd::prelude::*;

verus! {

/// The status code for a relay that succeeded or was rightly held back.
pub const HTTP_OK: u16 = 200;

/// The status code for a relay that failed.
pub const HTTP_SERVER_ERROR: u16 = 500;

/// The status code with which the inbound HTTP endpoint answers.
pub open spec fn status_for(outcome: Outcome) -> u16 {
    if outcome.succeeded() {
        HTTP_OK
    } else {
        HTTP_SERVER_ERROR
    }
}

/// The status code with which the inbound HTTP endpoint answers a request whose relay
/// ended with `outcome`.
pub fn http_status(outcome: &Outcome) -> (status: u16)
    ensures
        status == status_for(*outcome),
{
    if outcome.is_success() {
        HTTP_OK
    } else {
        HTTP_SERVER_ERROR
    }
}

/// What the bot writes to the operator whose relay ended with `outcome`: the error's
/// description for a relay that failed, and nothing for one that succeeded.
pub open spec fn acknowledgement_for(outcome: Outcome) -> Option<Seq<char>> {
    match outcome.failure() {
        Some(error) => Some(error.description()),
        None => None,
    }
}

/// What the bot writes to the operator whose relay ended with `outcome`.
pub fn acknowledgement(outcome: &Outcome) -> (text: Option<String>)
    ensures
        match acknowledgement_for(*outcome) {
            Some(expected) => text is Some && text->Some_0@ == expected,
            None => text is None,
        },
{
    match outcome.error() {
        Some(error) => Some(error.describe()),
        None => None,
    }
}

} // verus!
