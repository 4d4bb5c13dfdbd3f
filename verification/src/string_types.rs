//! Size-constrained text primitives.
//!
//! Character counts are counts of Unicode scalar values, never bytes: the
//! view of every type here is the `Seq<char>` of its contents.

use vstd::prelude::*;

verus! {

use crate::strutil::{chars_to_string, str_to_chars};

/// Text whose character count is exactly `N`.
#[derive(Clone, Debug, PartialEq, Eq, PartialOrd, Ord)]
pub struct ExactSizeString<const N: usize> {
    text: String,
}

impl<const N: usize> View for ExactSizeString<N> {
    type V = Seq<char>;

    closed spec fn view(&self) -> Seq<char> {
        self.text@
    }
}

impl<const N: usize> ExactSizeString<N> {
    /// The invariant every value of this type keeps.
    pub open spec fn wf(&self) -> bool {
        self@.len() == N
    }

    /// Accepts the input exactly when it holds `N` characters.
    pub fn new(val: &str) -> (r: Option<Self>)
        ensures
            r is Some <==> val@.len() == N,
            r matches Some(t) ==> t@ == val@ && t.wf(),
    {
        let cs = str_to_chars(val);
        if cs.len() == N {
            Some(Self { text: val.to_owned() })
        } else {
            None
        }
    }

    /// Truncates an over-long input down to `N` characters; rejects an
    /// input shorter than `N`.
    pub fn new_strip(val: &str) -> (r: Option<Self>)
        ensures
            r is Some <==> val@.len() >= N,
            r matches Some(t) ==> t@ == val@.take(N as int) && t.wf(),
    {
        let mut cs = str_to_chars(val);
        if cs.len() < N {
            None
        } else if cs.len() == N {
            proof {
                assert(val@.take(N as int) =~= val@);
            }
            Some(Self { text: val.to_owned() })
        } else {
            cs.truncate(N);
            Some(Self { text: chars_to_string(cs.as_slice()) })
        }
    }

    /// Wraps the input without a runtime check; the caller guarantees the
    /// character count.
    pub fn new_unchecked(val: &str) -> (r: Self)
        requires
            val@.len() == N,
        ensures
            r@ == val@,
            r.wf(),
    {
        Self { text: val.to_owned() }
    }

    /// Read access to the underlying text.
    pub fn as_str(&self) -> (r: &str)
        ensures
            r@ == self@,
    {
        self.text.as_str()
    }
}

/// Text whose character count is at most `N`.
#[derive(Clone, Debug, PartialEq, Eq, PartialOrd, Ord)]
pub struct MaxSizeString<const N: usize> {
    text: String,
}

impl<const N: usize> View for MaxSizeString<N> {
    type V = Seq<char>;

    closed spec fn view(&self) -> Seq<char> {
        self.text@
    }
}

impl<const N: usize> MaxSizeString<N> {
    /// The invariant every value of this type keeps.
    pub open spec fn wf(&self) -> bool {
        self@.len() <= N
    }

    /// Accepts the input exactly when it holds at most `N` characters.
    pub fn new(val: &str) -> (r: Option<Self>)
        ensures
            r is Some <==> val@.len() <= N,
            r matches Some(t) ==> t@ == val@ && t.wf(),
    {
        let cs = str_to_chars(val);
        if cs.len() <= N {
            Some(Self { text: val.to_owned() })
        } else {
            None
        }
    }

    /// Keeps an input of at most `N` characters as it is, and truncates a
    /// longer one down to `N`.
    pub fn new_strip(val: &str) -> (r: Self)
        ensures
            r@ == if val@.len() <= N {
                val@
            } else {
                val@.take(N as int)
            },
            r.wf(),
    {
        let mut cs = str_to_chars(val);
        if cs.len() <= N {
            Self { text: val.to_owned() }
        } else {
            cs.truncate(N);
            Self { text: chars_to_string(cs.as_slice()) }
        }
    }

    /// Wraps the input without a runtime check; the caller guarantees the
    /// character count.
    pub fn new_unchecked(val: &str) -> (r: Self)
        requires
            val@.len() <= N,
        ensures
            r@ == val@,
            r.wf(),
    {
        Self { text: val.to_owned() }
    }

    /// Read access to the underlying text.
    pub fn as_str(&self) -> (r: &str)
        ensures
            r@ == self@,
    {
        self.text.as_str()
    }
}

/// Conversions from plain string slices into the constrained text types.
pub trait StringExt {
    fn to_exact_size<const N: usize>(self) -> Option<ExactSizeString<N>>;

    fn to_max_size<const N: usize>(self) -> Option<MaxSizeString<N>>;
}

impl<'s> StringExt for &'s str {
    /// Same acceptance condition as [`ExactSizeString::new`].
    fn to_exact_size<const N: usize>(self) -> (r: Option<ExactSizeString<N>>)
        ensures
            r is Some <==> self@.len() == N,
            r matches Some(t) ==> t@ == self@ && t.wf(),
    {
        ExactSizeString::new(self)
    }

    /// Same acceptance condition as [`MaxSizeString::new`].
    fn to_max_size<const N: usize>(self) -> (r: Option<MaxSizeString<N>>)
        ensures
            r is Some <==> self@.len() <= N,
            r matches Some(t) ==> t@ == self@ && t.wf(),
    {
        MaxSizeString::new(self)
    }
}

} // verus!
