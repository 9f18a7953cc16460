//! Core of a desktop presence integration: a coordinator that owns a single
//! connection to an external presence service, retries its establishment,
//! dispatches updates without blocking the caller, and translates caller
//! payloads into the activity shape the external client expects.

use vstd::prelude::*;

pub mod classify;
pub mod dispatch;
pub mod errors;
pub mod payload;
pub mod pipes;
pub mod slot;
pub mod supervisor;

verus! {

/// Formats an error for the command boundary, which deals in plain strings.
pub fn err_to_string(e: &errors::RpcError) -> (r: String)
    ensures
        r@ == e.spec_message(),
{
    e.message()
}

/// Relies on std's `char::to_string`: the one-character string of `c`.
#[verifier::external_body]
pub(crate) fn char_to_str(c: char) -> (r: String)
    ensures
        r@ == seq![c],
{
    c.to_string()
}

} // verus!
