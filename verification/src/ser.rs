//! Encoding: from a value to the string that the outer document holds.

use vstd::prelude::*;
use crate::each::{
    fails_first_at, first_failure, lemma_fails_at, lemma_succeeds, lemma_try_each, step_at, try_each,
};
use crate::error::{EncodeError, EncodeErrorView};
use crate::token::{views_of, Element, ElementView, Token, TokenView};
use crate::NestedJson;

verus! {

/// A type whose values can be written as the text of an inner document.
pub trait SerializeInner {
    /// The text of this value as one complete document, or what the writer
    /// says of the value where it has none.
    spec fn encoded(&self) -> Result<Seq<char>, Seq<char>>;

    /// Writes this value as one complete document.
    fn serialize_inner(&self) -> (r: Result<String, String>)
        ensures
            write_outcome(r) == self.encoded(),
    ;
}

/// The outcome of a write, with text and message taken by their views.
pub open spec fn write_outcome(r: Result<String, String>) -> Result<Seq<char>, Seq<char>> {
    match r {
        Ok(text) => Ok(text@),
        Err(message) => Err(message@),
    }
}

/// The outcome of an encode, with token and error taken by their views.
pub open spec fn encode_outcome(r: Result<Token, EncodeError>) -> Result<
    TokenView,
    EncodeErrorView,
> {
    match r {
        Ok(token) => Ok(token@),
        Err(error) => Err(error@),
    }
}

/// What a value encodes to as a nested field: a string whose content is the
/// value's document, or the writer's message as an inner failure.
pub open spec fn spec_nest<T: SerializeInner>(field: T) -> Result<TokenView, EncodeErrorView> {
    match field.encoded() {
        Ok(text) => Ok(TokenView::Text(text)),
        Err(message) => Err(EncodeErrorView::Inner { message }),
    }
}

/// Turns the outcome of writing a value into the outcome of encoding the
/// field: a text becomes the string that holds it, a message becomes an inner
/// failure.
pub fn string_outcome(written: Result<String, String>) -> (r: Result<Token, EncodeError>)
    ensures
        encode_outcome(r) == match written {
            Ok(text) => Ok::<TokenView, EncodeErrorView>(TokenView::Text(text@)),
            Err(message) => Err(EncodeErrorView::Inner { message: message@ }),
        },
{
    match written {
        Ok(text) => Ok(Token::Text(text)),
        Err(message) => Err(EncodeError::Inner { message }),
    }
}

/// Encodes a value as a nested field: a string whose content is the value's
/// document. Whatever the value, no other kind of token comes out.
pub fn nest<T: SerializeInner>(field: &T) -> (r: Result<Token, EncodeError>)
    ensures
        encode_outcome(r) == spec_nest(*field),
        r matches Ok(token) ==> token@ is Text,
{
    string_outcome(field.serialize_inner())
}

impl<T: SerializeInner> NestedJson<T> {
    /// Encodes the wrapped value as a nested field.
    pub fn serialize(&self) -> (r: Result<Token, EncodeError>)
        ensures
            encode_outcome(r) == spec_nest(self.inner()),
            r matches Ok(token) ==> token@ is Text,
    {
        nest(&self.0)
    }
}

/// The step that writes the element at `index`: the text of the value's
/// document, or the writer's message as the failure of that element.
pub open spec fn write_step<T: SerializeInner>() -> spec_fn(int, T) -> Result<
    Seq<char>,
    EncodeErrorView,
> {
    |index: int, field: T|
        match field.encoded() {
            Ok(text) => Ok(text),
            Err(message) => Err(EncodeErrorView::Element { index, message }),
        }
}

/// The strings that hold the given texts, element by element.
pub open spec fn texts_as_elements(texts: Seq<Seq<char>>) -> Seq<ElementView> {
    Seq::new(texts.len(), |i: int| ElementView::Text(texts[i]))
}

/// What a sequence of values encodes to as a sequence of nested fields: each
/// value is written on its own, in order, and the first that fails makes the
/// whole fail; else the sequence of the strings that hold the documents.
pub open spec fn spec_nest_iter<T: SerializeInner>(fields: Seq<T>) -> Result<
    TokenView,
    EncodeErrorView,
> {
    match try_each(fields, write_step::<T>()) {
        Ok(texts) => Ok(TokenView::Sequence(texts_as_elements(texts))),
        Err(error) => Err(error),
    }
}

/// Turns the outcome of writing the element at `index` into the outcome of
/// encoding that element: a text becomes the string that holds it, a message
/// becomes the failure of that element.
pub fn element_string_outcome(index: usize, written: Result<String, String>) -> (r: Result<
    Element,
    EncodeError,
>)
    ensures
        match r {
            Ok(element) => written matches Ok(text) && element@ == ElementView::Text(text@),
            Err(error) => written matches Err(message) && error@ == (EncodeErrorView::Element {
                index: index as int,
                message: message@,
            }),
        },
{
    match written {
        Ok(text) => Ok(Element::Text(text)),
        Err(message) => Err(EncodeError::Element { index, message }),
    }
}

/// Encodes a sequence of values as a sequence of nested fields: one string
/// for each value, in order, each holding that value's document.
pub fn nest_iter<T: SerializeInner>(field: &[T]) -> (r: Result<Token, EncodeError>)
    ensures
        encode_outcome(r) == spec_nest_iter(field@),
        r matches Ok(token) ==> token@ is Sequence && nests_elementwise(
            field@,
            token@->Sequence_0,
        ),
{
    proof {
        lemma_nest_iter_elementwise(field@);
    }
    let ghost step = write_step::<T>();
    let ghost texts: Seq<Seq<char>> = Seq::empty();
    let mut elements: Vec<Element> = Vec::new();
    let mut i: usize = 0;
    while i < field.len()
        invariant
            0 <= i <= field.len(),
            step == write_step::<T>(),
            elements.len() == i,
            texts.len() == i,
            forall|j: int|
                0 <= j < i ==> (#[trigger] step_at(field@, step, j)) == Ok::<
                    Seq<char>,
                    EncodeErrorView,
                >(texts[j]),
            forall|j: int| 0 <= j < i ==> (#[trigger] elements@[j])@ == ElementView::Text(texts[j]),
        decreases field.len() - i,
    {
        match element_string_outcome(i, field[i].serialize_inner()) {
            Ok(element) => {
                proof {
                    texts = texts.push(field@[i as int].encoded()->Ok_0);
                }
                elements.push(element);
            },
            Err(error) => {
                proof {
                    lemma_fails_at(field@, step, i as int);
                }
                return Err(error);
            },
        }
        i += 1;
    }
    proof {
        lemma_succeeds(field@, step, texts);
        assert(views_of(elements@) =~= texts_as_elements(texts));
    }
    Ok(Token::Sequence(elements))
}

/// Whatever encodes at all encodes to a string: no value becomes any other
/// kind of token.
pub proof fn lemma_nest_is_text<T: SerializeInner>(field: T)
    ensures
        spec_nest(field) matches Ok(token) ==> token is Text,
{
}

/// Where the value at `i` is the first that has no document text, the
/// sequence fails with the failure of that element.
pub proof fn lemma_nest_iter_element<T: SerializeInner>(fields: Seq<T>, i: int)
    requires
        0 <= i < fields.len(),
        fields[i].encoded() is Err,
        forall|j: int| 0 <= j < i ==> (#[trigger] fields[j]).encoded() is Ok,
    ensures
        spec_nest_iter(fields) == Err::<TokenView, EncodeErrorView>(
            EncodeErrorView::Element { index: i, message: fields[i].encoded()->Err_0 },
        ),
{
    assert forall|j: int| 0 <= j < i implies (#[trigger] step_at(fields, write_step::<T>(), j))
        is Ok by {
        assert(fields[j].encoded() is Ok);
    }
    lemma_fails_at(fields, write_step::<T>(), i);
}

/// Whether `items` are the strings that the values of `fields` encode to,
/// each as a nested field of its own: as many, and in the same order.
pub open spec fn nests_elementwise<T: SerializeInner>(
    fields: Seq<T>,
    items: Seq<ElementView>,
) -> bool {
    &&& items.len() == fields.len()
    &&& forall|i: int|
        #![trigger fields[i]]
        #![trigger items[i]]
        0 <= i < fields.len() ==> items[i] is Text && spec_nest(fields[i]) == Ok::<
            TokenView,
            EncodeErrorView,
        >(items[i].alone())
}

/// A sequence that encodes at all encodes to a sequence of strings, one for
/// each value and in the same order, each the string that its value encodes
/// to alone. Where it fails, some value fails when encoded alone.
pub proof fn lemma_nest_iter_elementwise<T: SerializeInner>(fields: Seq<T>)
    ensures
        match spec_nest_iter(fields) {
            Ok(token) => token is Sequence && nests_elementwise(fields, token->Sequence_0),
            Err(_) => exists|i: int| 0 <= i < fields.len() && spec_nest(#[trigger] fields[i]) is Err,
        },
{
    lemma_try_each(fields, write_step::<T>());
    match try_each(fields, write_step::<T>()) {
        Ok(texts) => {
            let items = texts_as_elements(texts);
            assert forall|i: int| 0 <= i < fields.len() implies items[i] is Text && spec_nest(
                fields[i],
            ) == Ok::<TokenView, EncodeErrorView>(items[i].alone()) by {
                assert(step_at(fields, write_step::<T>(), i) == Ok::<Seq<char>, EncodeErrorView>(
                    texts[i],
                ));
            }
        },
        Err(_) => {
            let i = first_failure(fields, write_step::<T>());
            assert(fails_first_at(fields, write_step::<T>(), i));
            assert(spec_nest(fields[i]) is Err);
        },
    }
}

} // verus!
