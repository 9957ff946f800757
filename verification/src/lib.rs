//! Fields whose wire form is a JSON document written inside a JSON string.
//!
//! A nested field holds, at one position of an outer document, a string whose
//! content is itself a complete JSON document. This crate decodes such a string
//! into a value and encodes a value into such a string, for one field or for
//! every element of a sequence.
//!
//! The outer document is read and written elsewhere: what it holds at the
//! field comes in as a [`token::Token`], and what is to stand there goes out as
//! one. The inner document is read and written by `serde_json`.

use vstd::prelude::*;

pub mod codec;
pub mod de;
pub mod each;
pub mod error;
pub mod optional;
pub mod round_trip;
pub mod ser;
pub mod token;

verus! {

/// Owns one value that travels as a nested field. The wrapper holds the value
/// and nothing else.
pub struct NestedJson<T>(T);

impl<T> NestedJson<T> {
    /// The value that the wrapper holds.
    pub closed spec fn inner(self) -> T {
        self.0
    }

    /// Wraps `inner`.
    pub fn from(inner: T) -> (nested: Self)
        ensures
            nested.inner() == inner,
    {
        NestedJson(inner)
    }

    /// Gives the wrapped value back.
    pub fn into(self) -> (inner: T)
        ensures
            inner == self.inner(),
    {
        self.0
    }
}

impl<T> AsRef<T> for NestedJson<T> {
    fn as_ref(&self) -> (inner: &T)
        ensures
            *inner == self.inner(),
    {
        &self.0
    }
}

impl<T> From<T> for NestedJson<T> {
    fn from(inner: T) -> (nested: Self) {
        NestedJson(inner)
    }
}

impl<T> vstd::std_specs::convert::FromSpecImpl<T> for NestedJson<T> {
    open spec fn obeys_from_spec() -> bool {
        true
    }

    closed spec fn from_spec(inner: T) -> Self {
        NestedJson(inner)
    }
}

/// The wrapper that the conversion from a value gives holds that value.
pub proof fn lemma_from_holds_inner<T>(inner: T)
    ensures
        <NestedJson<T> as vstd::std_specs::convert::FromSpec<T>>::from_spec(inner).inner() == inner,
{
}

/// A value that was wrapped comes out unchanged: two wrappers are the same
/// exactly where they hold the same value.
pub proof fn lemma_wrapper_is_its_value<T>(a: NestedJson<T>, b: NestedJson<T>)
    ensures
        a == b <==> a.inner() == b.inner(),
{
}

} // verus!
