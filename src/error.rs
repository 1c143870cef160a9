//! The error surfaced by resolution: a wrapper around the resolver's own failure.

use vstd::prelude::*;
use vstd::string::*;

use hickory_resolver::error::ResolveError;

verus! {

/// The failures of resolution.
#[derive(Debug)]
pub enum Error {
    /// The resolver failed; its error is kept as the cause.
    HickoryDns(ResolveError),
}

impl From<ResolveError> for Error {
    fn from(err: ResolveError) -> (r: Error)
        ensures
            r == Error::HickoryDns(err),
    {
        Error::HickoryDns(err)
    }
}

impl vstd::std_specs::convert::FromSpecImpl<ResolveError> for Error {
    open spec fn obeys_from_spec() -> bool {
        true
    }

    open spec fn from_spec(v: ResolveError) -> Error {
        Error::HickoryDns(v)
    }
}

/// The text that opens every message of a resolver failure.
pub open spec fn hickory_prefix() -> Seq<char> {
    "HickoryDNS error: "@
}

impl Error {
    /// The resolver's failure that this error wraps.
    pub open spec fn cause(&self) -> ResolveError {
        match self {
            Error::HickoryDns(e) => *e,
        }
    }

    /// The underlying failure that this error wraps.
    pub fn source(&self) -> (r: &ResolveError)
        ensures
            *r == self.cause(),
    {
        match self {
            Error::HickoryDns(e) => e,
        }
    }

    /// A human-readable description: a fixed prefix, then the resolver's own
    /// description of its failure.
    pub fn message(&self) -> (r: String)
        ensures
            exists|t: String|
                #[trigger] to_string_from_display_ensures::<ResolveError>(&self.cause(), t)
                    && r@ == hickory_prefix() + t@,
    {
        match self {
            Error::HickoryDns(e) => {
                let t = e.to_string();
                let mut s = String::from_str("HickoryDNS error: ");
                s.append(t.as_str());
                proof {
                    reveal_strlit("HickoryDNS error: ");
                    assert(to_string_from_display_ensures::<ResolveError>(&self.cause(), t));
                    assert(s@ == hickory_prefix() + t@);
                }
                s
            },
        }
    }
}

} // verus!
