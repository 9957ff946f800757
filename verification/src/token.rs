//! The value that an outer document holds at the position of a nested field.

use vstd::prelude::*;

verus! {

/// The kinds of value that a document can hold at one position.
#[derive(Clone, Copy, Debug, PartialEq, Eq, Structural)]
pub enum Kind {
    Null,
    Bool,
    Number,
    Text,
    Sequence,
    Mapping,
}

/// One element of a sequence of an outer document, kept as far as a nested
/// field looks at it: a string keeps its content, and of every other value
/// only the kind is kept.
#[derive(Debug, PartialEq, Eq)]
pub enum Element {
    Null,
    Bool,
    Number,
    /// A string, with its content after the outer document's escapes were undone.
    Text(String),
    Sequence,
    Mapping,
}

/// One value of an outer document, kept as far as a nested field looks at it.
///
/// A nested field is a string, and a sequence of nested fields is a sequence
/// of strings, so a string keeps its content and a sequence its elements. Of
/// every other value only the kind is kept.
#[derive(Debug, PartialEq, Eq)]
pub enum Token {
    Null,
    Bool,
    Number,
    /// A string, with its content after the outer document's escapes were undone.
    Text(String),
    /// A sequence, with its elements in order.
    Sequence(Vec<Element>),
    Mapping,
}

/// The mathematical value of an [`Element`].
pub ghost enum ElementView {
    Null,
    Bool,
    Number,
    Text(Seq<char>),
    Sequence,
    Mapping,
}

/// The mathematical value of a [`Token`].
pub ghost enum TokenView {
    Null,
    Bool,
    Number,
    Text(Seq<char>),
    Sequence(Seq<ElementView>),
    Mapping,
}

impl ElementView {
    /// The kind of this value.
    pub open spec fn kind(self) -> Kind {
        match self {
            ElementView::Null => Kind::Null,
            ElementView::Bool => Kind::Bool,
            ElementView::Number => Kind::Number,
            ElementView::Text(_) => Kind::Text,
            ElementView::Sequence => Kind::Sequence,
            ElementView::Mapping => Kind::Mapping,
        }
    }

    /// This element as a value that stands alone. A sequence stands without
    /// its elements, which an element does not keep.
    pub open spec fn alone(self) -> TokenView {
        match self {
            ElementView::Null => TokenView::Null,
            ElementView::Bool => TokenView::Bool,
            ElementView::Number => TokenView::Number,
            ElementView::Text(content) => TokenView::Text(content),
            ElementView::Sequence => TokenView::Sequence(Seq::empty()),
            ElementView::Mapping => TokenView::Mapping,
        }
    }
}

impl TokenView {
    /// The kind of this value.
    pub open spec fn kind(self) -> Kind {
        match self {
            TokenView::Null => Kind::Null,
            TokenView::Bool => Kind::Bool,
            TokenView::Number => Kind::Number,
            TokenView::Text(_) => Kind::Text,
            TokenView::Sequence(_) => Kind::Sequence,
            TokenView::Mapping => Kind::Mapping,
        }
    }
}

impl View for Element {
    type V = ElementView;

    open spec fn view(&self) -> ElementView {
        match self {
            Element::Null => ElementView::Null,
            Element::Bool => ElementView::Bool,
            Element::Number => ElementView::Number,
            Element::Text(content) => ElementView::Text(content@),
            Element::Sequence => ElementView::Sequence,
            Element::Mapping => ElementView::Mapping,
        }
    }
}

impl View for Token {
    type V = TokenView;

    open spec fn view(&self) -> TokenView {
        match self {
            Token::Null => TokenView::Null,
            Token::Bool => TokenView::Bool,
            Token::Number => TokenView::Number,
            Token::Text(content) => TokenView::Text(content@),
            Token::Sequence(items) => TokenView::Sequence(views_of(items@)),
            Token::Mapping => TokenView::Mapping,
        }
    }
}

/// The views of a sequence of elements, one by one.
pub open spec fn views_of(items: Seq<Element>) -> Seq<ElementView> {
    Seq::new(items.len(), |i: int| items[i]@)
}

impl Element {
    /// The kind of this element.
    pub fn kind(&self) -> (kind: Kind)
        ensures
            kind == self@.kind(),
    {
        match self {
            Element::Null => Kind::Null,
            Element::Bool => Kind::Bool,
            Element::Number => Kind::Number,
            Element::Text(_) => Kind::Text,
            Element::Sequence => Kind::Sequence,
            Element::Mapping => Kind::Mapping,
        }
    }
}

impl Token {
    /// The kind of this token.
    pub fn kind(&self) -> (kind: Kind)
        ensures
            kind == self@.kind(),
    {
        match self {
            Token::Null => Kind::Null,
            Token::Bool => Kind::Bool,
            Token::Number => Kind::Number,
            Token::Text(_) => Kind::Text,
            Token::Sequence(_) => Kind::Sequence,
            Token::Mapping => Kind::Mapping,
        }
    }
}

} // verus!
