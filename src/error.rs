//! Errors of the console's configuration and of the envelope codec.

use vstd::prelude::*;
use vstd::string::{StrSliceExecFns, StringExecFns};

verus! {

/// Why a console could not be configured, or a payload not encoded.
#[derive(Debug)]
pub enum Error {
    /// A handler was already registered under this service id (its decimal text).
    ServiceIdUsed(String),
    /// `build` was called before a bind address was given.
    NoBindAddress,
    /// A payload longer than the codec's largest sequence, with its length.
    PayloadTooLong(usize),
}

impl Error {
    /// A sentence that describes the error.
    pub fn message(&self) -> (r: String)
        ensures
            self matches Error::ServiceIdUsed(id) ==> r@ == "Subscription cannot be registered: service id `"@
                + id@ + "` is already in use"@,
            self is NoBindAddress ==> r@ == "Console bind address is not specified"@,
            self is PayloadTooLong ==> r@ == "Payload is too long to be encoded"@,
    {
        proof {
            reveal_strlit("Subscription cannot be registered: service id `");
            reveal_strlit("` is already in use");
            reveal_strlit("Console bind address is not specified");
            reveal_strlit("Payload is too long to be encoded");
        }
        match self {
            Error::ServiceIdUsed(id) => {
                let mut s = String::from_str("Subscription cannot be registered: service id `");
                s.append(id.as_str());
                s.append("` is already in use");
                s
            },
            Error::NoBindAddress => String::from_str("Console bind address is not specified"),
            Error::PayloadTooLong(_) => String::from_str("Payload is too long to be encoded"),
        }
    }
}

/// The decimal digit `d` as a character.
pub open spec fn digit_char(d: nat) -> char {
    if d == 0 { '0' }
    else if d == 1 { '1' }
    else if d == 2 { '2' }
    else if d == 3 { '3' }
    else if d == 4 { '4' }
    else if d == 5 { '5' }
    else if d == 6 { '6' }
    else if d == 7 { '7' }
    else if d == 8 { '8' }
    else { '9' }
}

/// The decimal text of `n`, without leading zeros.
pub open spec fn decimal_text(n: nat) -> Seq<char>
    decreases n,
{
    if n < 10 {
        seq![digit_char(n)]
    } else {
        decimal_text(n / 10).push(digit_char(n % 10))
    }
}

/// Relies on the `Debug` formatting of `u64`: its decimal digits.
#[verifier::external_body]
pub(crate) fn id_text(id: u64) -> (r: String)
    ensures
        r@ == decimal_text(id as nat),
{
    format!("{id:?}")
}

} // verus!
