//! The ways in which reading or writing a nested field fails.

use vstd::prelude::*;
use crate::token::Kind;

verus! {

/// Why a nested field could not be decoded.
#[derive(Debug, PartialEq, Eq)]
pub enum DecodeError {
    /// The outer document holds a value of kind `found` where one of kind
    /// `expected` has to stand: the field itself is no string or no sequence,
    /// or an element of the sequence is no string.
    Shape { expected: Kind, found: Kind },
    /// The string's content is not one complete document of the wanted type.
    /// `message` is what the reader said of it, unchanged.
    Inner { message: String },
    /// The content of the element at `index` of a sequence is not one complete
    /// document of the wanted type. `message` is what the reader said of it.
    Element { index: usize, message: String },
}

/// The mathematical value of a [`DecodeError`].
pub ghost enum DecodeErrorView {
    Shape { expected: Kind, found: Kind },
    Inner { message: Seq<char> },
    Element { index: int, message: Seq<char> },
}

impl View for DecodeError {
    type V = DecodeErrorView;

    open spec fn view(&self) -> DecodeErrorView {
        match self {
            DecodeError::Shape { expected, found } => DecodeErrorView::Shape {
                expected: *expected,
                found: *found,
            },
            DecodeError::Inner { message } => DecodeErrorView::Inner { message: message@ },
            DecodeError::Element { index, message } => DecodeErrorView::Element {
                index: *index as int,
                message: message@,
            },
        }
    }
}

/// Why a value could not be encoded as a nested field.
#[derive(Debug, PartialEq, Eq)]
pub enum EncodeError {
    /// The value has no document form. `message` is what the writer said of
    /// it, unchanged.
    Inner { message: String },
    /// The element at `index` of a sequence has no document form. `message` is
    /// what the writer said of it.
    Element { index: usize, message: String },
}

/// The mathematical value of an [`EncodeError`].
pub ghost enum EncodeErrorView {
    Inner { message: Seq<char> },
    Element { index: int, message: Seq<char> },
}

impl View for EncodeError {
    type V = EncodeErrorView;

    open spec fn view(&self) -> EncodeErrorView {
        match self {
            EncodeError::Inner { message } => EncodeErrorView::Inner { message: message@ },
            EncodeError::Element { index, message } => EncodeErrorView::Element {
                index: *index as int,
                message: message@,
            },
        }
    }
}

} // verus!
