//! The extension point: a capability a host application implements to add
//! field kinds beyond the built-in dictionary.

use vstd::prelude::*;

verus! {

use crate::error::{Error, ErrorV};

/// A host-supplied requisite kind. A type implementing this trait can be
/// carried in the `Custom` slot of the field dictionary: it names its own
/// wire key and value, and decides which `(key, value)` pairs it accepts.
///
/// The specification functions fix, for every implementation, which pairs
/// convert (`spec_try_from`), which error a rejected pair raises
/// (`spec_try_err`), and what the wire key and value of a converted value
/// are; the executable methods are bound to them.
pub trait CustomRequisites: Sized {
    /// The wire key of this value. An implementation that is to be
    /// reasoned about overrides this; the default says nothing useful.
    open spec fn spec_key(&self) -> Seq<char> {
        Seq::empty()
    }

    /// The wire value of this value.
    open spec fn spec_value(&self) -> Seq<char> {
        Seq::empty()
    }

    /// The pairs this extension accepts, and what it turns them into.
    open spec fn spec_try_from(key: Seq<char>, value: Seq<char>) -> Option<Self> {
        None
    }

    /// The error raised for a pair this extension rejects.
    open spec fn spec_try_err(key: Seq<char>, value: Seq<char>) -> ErrorV {
        ErrorV::UnknownPair(key, value)
    }

    /// The wire key of this value.
    fn key(&self) -> (r: &str)
        ensures
            r@ == self.spec_key(),
    ;

    /// The wire value of this value.
    fn value(&self) -> (r: &str)
        ensures
            r@ == self.spec_value(),
    ;

    /// Fallible conversion from a wire pair.
    fn try_from_pair(key: &str, value: &str) -> (r: Result<Self, Error>)
        ensures
            match r {
                Ok(c) => Self::spec_try_from(key@, value@) == Some(c),
                Err(e) => Self::spec_try_from(key@, value@) is None && e@ == Self::spec_try_err(
                    key@,
                    value@,
                ),
            },
    ;
}

/// The default "no extensions" implementation: it owns no keys and rejects
/// every pair with `UnknownPair`.
#[derive(Clone, Debug, PartialEq, Eq)]
pub struct NoCustomRequisites;

impl CustomRequisites for NoCustomRequisites {
    open spec fn spec_key(&self) -> Seq<char> {
        Seq::empty()
    }

    open spec fn spec_value(&self) -> Seq<char> {
        Seq::empty()
    }

    open spec fn spec_try_from(key: Seq<char>, value: Seq<char>) -> Option<Self> {
        None
    }

    open spec fn spec_try_err(key: Seq<char>, value: Seq<char>) -> ErrorV {
        ErrorV::UnknownPair(key, value)
    }

    fn key(&self) -> (r: &str) {
        proof {
            reveal_strlit("");
        }
        ""
    }

    fn value(&self) -> (r: &str) {
        proof {
            reveal_strlit("");
        }
        ""
    }

    fn try_from_pair(key: &str, value: &str) -> (r: Result<Self, Error>)
        ensures
            r matches Err(e) && e@ == ErrorV::UnknownPair(key@, value@),
    {
        Err(Error::UnknownPair(key.to_owned(), value.to_owned()))
    }
}

} // verus!
