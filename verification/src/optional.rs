//! Optional values: the text `null` stands for the absent value.

use vstd::prelude::*;
use vstd::utf8::{is_ascii_chars, is_ascii_chars_encode_utf8};
use crate::de::{spec_unnest, DeserializeInnerOwned};
use crate::error::DecodeErrorView;
use crate::ser::SerializeInner;
use crate::token::TokenView;

verus! {

/// The four characters that stand for the absent value.
pub open spec fn null_text() -> Seq<char> {
    seq!['n', 'u', 'l', 'l']
}

/// Whether `text` is exactly the four characters `null`.
pub fn is_null_text(text: &str) -> (is_null: bool)
    ensures
        is_null == (text@ == null_text()),
{
    if text.len() != 4 {
        proof {
            if text@ == null_text() {
                assert(is_ascii_chars(text@));
                is_ascii_chars_encode_utf8(text@);
            }
        }
        return false;
    }
    if text.unicode_len() != 4 {
        return false;
    }
    let is_null = text.get_char(0) == 'n' && text.get_char(1) == 'u' && text.get_char(2) == 'l'
        && text.get_char(3) == 'l';
    proof {
        if is_null {
            assert(text@ =~= null_text());
        }
    }
    is_null
}

impl<T: DeserializeInnerOwned> DeserializeInnerOwned for Option<T> {
    /// The text `null` is the absent value, whatever `T` makes of it. Any
    /// other text holds a value of `T`, or fails as `T` does.
    open spec fn decoded(text: Seq<char>) -> Result<Self, Seq<char>> {
        if text == null_text() {
            Ok(None)
        } else {
            match T::decoded(text) {
                Ok(value) => Ok(Some(value)),
                Err(message) => Err(message),
            }
        }
    }

    fn deserialize_inner(text: &str) -> (r: Result<Self, String>) {
        if is_null_text(text) {
            Ok(None)
        } else {
            match T::deserialize_inner(text) {
                Ok(value) => Ok(Some(value)),
                Err(message) => Err(message),
            }
        }
    }
}

impl<T: SerializeInner> SerializeInner for Option<T> {
    /// The absent value is the text `null`. A value is written as `T` writes it.
    open spec fn encoded(&self) -> Result<Seq<char>, Seq<char>> {
        match self {
            None => Ok(null_text()),
            Some(value) => value.encoded(),
        }
    }

    fn serialize_inner(&self) -> (r: Result<String, String>) {
        match self {
            None => {
                let text = "null".to_owned();
                proof {
                    reveal_strlit("null");
                    assert(text@ =~= null_text());
                }
                Ok(text)
            },
            Some(value) => value.serialize_inner(),
        }
    }
}

/// A string whose content is exactly `null` decodes to the absent value of
/// any optional type, whatever the type makes of that text by itself.
pub proof fn lemma_null_is_absent<T: DeserializeInnerOwned>()
    ensures
        spec_unnest::<Option<T>>(TokenView::Text(null_text())) == Ok::<Option<T>, DecodeErrorView>(
            None,
        ),
{
}

/// A string with any other content decodes to a present value of an optional
/// type exactly where it decodes to that value of the type itself, and fails
/// with the same error where that fails.
pub proof fn lemma_other_text_is_present<T: DeserializeInnerOwned>(content: Seq<char>)
    requires
        content != null_text(),
    ensures
        spec_unnest::<Option<T>>(TokenView::Text(content)) == match spec_unnest::<T>(
            TokenView::Text(content),
        ) {
            Ok(value) => Ok::<Option<T>, DecodeErrorView>(Some(value)),
            Err(error) => Err(error),
        },
{
}

} // verus!
