//! Decoding: from the outer document's string to the value it holds.

use vstd::prelude::*;
use crate::each::{
    fails_first_at, first_failure, lemma_fails_at, lemma_succeeds, lemma_try_each, step_at, try_each,
};
use crate::error::{DecodeError, DecodeErrorView};
use crate::token::{views_of, Element, ElementView, Kind, Token, TokenView};
use crate::NestedJson;

verus! {

/// A type whose values can be read from the text of an inner document.
pub trait DeserializeInnerOwned: Sized {
    /// What `text` decodes to as one complete document of this type, or what
    /// the reader says of it where it is none.
    spec fn decoded(text: Seq<char>) -> Result<Self, Seq<char>>;

    /// Reads `text` as one complete document of this type.
    fn deserialize_inner(text: &str) -> (r: Result<Self, String>)
        ensures
            read_outcome(r) == Self::decoded(text@),
    ;
}

/// The outcome of a read, with the message taken by its view.
pub open spec fn read_outcome<T>(r: Result<T, String>) -> Result<T, Seq<char>> {
    match r {
        Ok(value) => Ok(value),
        Err(message) => Err(message@),
    }
}

/// The outcome of a decode, with the error taken by its view.
pub open spec fn decode_outcome<T>(r: Result<T, DecodeError>) -> Result<T, DecodeErrorView> {
    match r {
        Ok(value) => Ok(value),
        Err(error) => Err(error@),
    }
}

/// What a string with the given content decodes to: the value that the
/// content holds as a document, or the reader's message as an inner failure.
pub open spec fn spec_visit_str<T: DeserializeInnerOwned>(content: Seq<char>) -> Result<
    T,
    DecodeErrorView,
> {
    match T::decoded(content) {
        Ok(value) => Ok(value),
        Err(message) => Err(DecodeErrorView::Inner { message }),
    }
}

/// What a token decodes to as a nested field: a string decodes as its content
/// does, and anything else is of the wrong shape.
pub open spec fn spec_unnest<T: DeserializeInnerOwned>(token: TokenView) -> Result<
    T,
    DecodeErrorView,
> {
    match token {
        TokenView::Text(content) => spec_visit_str::<T>(content),
        other => Err(DecodeErrorView::Shape { expected: Kind::Text, found: other.kind() }),
    }
}

/// Turns the outcome of reading a string's content into the outcome of
/// decoding the field: a value stays, a message becomes an inner failure.
pub fn inner_outcome<T>(read: Result<T, String>) -> (r: Result<T, DecodeError>)
    ensures
        decode_outcome(r) == match read {
            Ok(value) => Ok::<T, DecodeErrorView>(value),
            Err(message) => Err(DecodeErrorView::Inner { message: message@ }),
        },
{
    match read {
        Ok(value) => Ok(value),
        Err(message) => Err(DecodeError::Inner { message }),
    }
}

/// Receives the content of the string that stands at a nested field.
pub struct NestedJsonVisitor<T: DeserializeInnerOwned>(core::marker::PhantomData<T>);

impl<T: DeserializeInnerOwned> NestedJsonVisitor<T> {
    /// A visitor for fields of type `T`.
    pub fn new() -> Self {
        NestedJsonVisitor(core::marker::PhantomData)
    }

    /// Names what the visitor accepts.
    pub fn expecting(&self) -> (text: &'static str)
        ensures
            text@ == "expected a string"@,
    {
        "expected a string"
    }

    /// Decodes the content of the field's string as one complete document.
    pub fn visit_str(self, v: &str) -> (r: Result<T, DecodeError>)
        ensures
            decode_outcome(r) == spec_visit_str::<T>(v@),
    {
        inner_outcome(T::deserialize_inner(v))
    }
}

impl<T: DeserializeInnerOwned> NestedJson<T> {
    /// Decodes the field that `token` stands for and wraps its value.
    pub fn deserialize(token: &Token) -> (r: Result<Self, DecodeError>)
        ensures
            match r {
                Ok(nested) => spec_unnest::<T>(token@) == Ok::<T, DecodeErrorView>(nested.inner()),
                Err(error) => spec_unnest::<T>(token@) == Err::<T, DecodeErrorView>(error@),
            },
    {
        match token {
            Token::Text(content) => {
                let visitor = NestedJsonVisitor::<T>::new();
                match visitor.visit_str(content.as_str()) {
                    Ok(inner) => Ok(NestedJson::from(inner)),
                    Err(error) => Err(error),
                }
            },
            other => Err(DecodeError::Shape { expected: Kind::Text, found: other.kind() }),
        }
    }
}

/// Decodes a nested field: `token` has to be a string, and its content one
/// complete document of type `T`.
pub fn unnest<T: DeserializeInnerOwned>(token: &Token) -> (r: Result<T, DecodeError>)
    ensures
        decode_outcome(r) == spec_unnest::<T>(token@),
{
    match NestedJson::<T>::deserialize(token) {
        Ok(nested) => Ok(nested.into()),
        Err(error) => Err(error),
    }
}

/// The step that reads one element of an outer sequence as a string: a
/// string gives its content, anything else is of the wrong shape.
pub open spec fn text_step() -> spec_fn(int, ElementView) -> Result<Seq<char>, DecodeErrorView> {
    |index: int, element: ElementView|
        match element {
            ElementView::Text(content) => Ok(content),
            other => Err(DecodeErrorView::Shape { expected: Kind::Text, found: other.kind() }),
        }
}

/// The step that decodes the content of the element at `index`: the value
/// that the content holds as a document, or the reader's message as the
/// failure of that element.
pub open spec fn element_step<T: DeserializeInnerOwned>() -> spec_fn(int, Seq<char>) -> Result<
    T,
    DecodeErrorView,
> {
    |index: int, content: Seq<char>|
        match T::decoded(content) {
            Ok(value) => Ok(value),
            Err(message) => Err(DecodeErrorView::Element { index, message }),
        }
}

/// What a token decodes to as a sequence of nested fields. It has to be a
/// sequence, and each of its elements a string: the first that is none makes
/// the whole of the wrong shape. Then each content is decoded on its own, in
/// order, and the first that fails makes the whole fail.
pub open spec fn spec_unnest_vec<T: DeserializeInnerOwned>(token: TokenView) -> Result<
    Seq<T>,
    DecodeErrorView,
> {
    match token {
        TokenView::Sequence(items) => match try_each(items, text_step()) {
            Ok(contents) => try_each(contents, element_step::<T>()),
            Err(error) => Err(error),
        },
        other => Err(DecodeErrorView::Shape { expected: Kind::Sequence, found: other.kind() }),
    }
}

/// The contents of a sequence of strings, element by element.
pub open spec fn contents_of(texts: Seq<&str>) -> Seq<Seq<char>> {
    Seq::new(texts.len(), |i: int| texts[i]@)
}

/// Turns the outcome of reading the content of the element at `index` into
/// the outcome of decoding that element: a value stays, a message becomes the
/// failure of that element.
pub fn element_outcome<T>(index: usize, read: Result<T, String>) -> (r: Result<T, DecodeError>)
    ensures
        decode_outcome(r) == match read {
            Ok(value) => Ok::<T, DecodeErrorView>(value),
            Err(message) => Err(
                DecodeErrorView::Element { index: index as int, message: message@ },
            ),
        },
{
    match read {
        Ok(value) => Ok(value),
        Err(message) => Err(DecodeError::Element { index, message }),
    }
}

/// Reads every element of an outer sequence as a string.
fn strings_of<'a>(items: &'a Vec<Element>) -> (r: Result<Vec<&'a str>, DecodeError>)
    ensures
        match r {
            Ok(texts) => try_each(views_of(items@), text_step()) == Ok::<
                Seq<Seq<char>>,
                DecodeErrorView,
            >(contents_of(texts@)),
            Err(error) => try_each(views_of(items@), text_step()) == Err::<
                Seq<Seq<char>>,
                DecodeErrorView,
            >(error@),
        },
{
    let ghost views = views_of(items@);
    let mut texts: Vec<&str> = Vec::new();
    let mut i: usize = 0;
    while i < items.len()
        invariant
            0 <= i <= items.len(),
            views == views_of(items@),
            texts.len() == i,
            forall|j: int|
                0 <= j < i ==> (#[trigger] step_at(views, text_step(), j)) == Ok::<
                    Seq<char>,
                    DecodeErrorView,
                >(texts@[j]@),
        decreases items.len() - i,
    {
        match &items[i] {
            Element::Text(content) => {
                texts.push(content.as_str());
            },
            other => {
                proof {
                    lemma_fails_at(views, text_step(), i as int);
                }
                return Err(DecodeError::Shape { expected: Kind::Text, found: other.kind() });
            },
        }
        i += 1;
    }
    proof {
        lemma_succeeds(views, text_step(), contents_of(texts@));
    }
    Ok(texts)
}

/// Decodes the content of every string on its own, in order.
fn decode_each<T: DeserializeInnerOwned>(texts: &Vec<&str>) -> (r: Result<Vec<T>, DecodeError>)
    ensures
        match r {
            Ok(values) => try_each(contents_of(texts@), element_step::<T>()) == Ok::<
                Seq<T>,
                DecodeErrorView,
            >(values@),
            Err(error) => try_each(contents_of(texts@), element_step::<T>()) == Err::<
                Seq<T>,
                DecodeErrorView,
            >(error@),
        },
{
    let ghost contents = contents_of(texts@);
    let mut values: Vec<T> = Vec::new();
    let mut i: usize = 0;
    while i < texts.len()
        invariant
            0 <= i <= texts.len(),
            contents == contents_of(texts@),
            values.len() == i,
            forall|j: int|
                0 <= j < i ==> (#[trigger] step_at(contents, element_step::<T>(), j)) == Ok::<
                    T,
                    DecodeErrorView,
                >(values@[j]),
        decreases texts.len() - i,
    {
        match element_outcome(i, T::deserialize_inner(texts[i])) {
            Ok(value) => {
                values.push(value);
            },
            Err(error) => {
                proof {
                    lemma_fails_at(contents, element_step::<T>(), i as int);
                }
                return Err(error);
            },
        }
        i += 1;
    }
    proof {
        lemma_succeeds(contents, element_step::<T>(), values@);
    }
    Ok(values)
}

/// Decodes a sequence of nested fields: `token` has to be a sequence of
/// strings, and the content of each one complete document of type `T`.
pub fn unnest_vec<T: DeserializeInnerOwned>(token: &Token) -> (r: Result<Vec<T>, DecodeError>)
    ensures
        match r {
            Ok(values) => spec_unnest_vec::<T>(token@) == Ok::<Seq<T>, DecodeErrorView>(values@),
            Err(error) => spec_unnest_vec::<T>(token@) == Err::<Seq<T>, DecodeErrorView>(error@),
        },
        r matches Ok(values) ==> token@ is Sequence && unnests_elementwise(
            token@->Sequence_0,
            values@,
        ),
{
    proof {
        if token@ is Sequence {
            lemma_unnest_vec_elementwise::<T>(token@->Sequence_0);
        }
    }
    match token {
        Token::Sequence(items) => match strings_of(items) {
            Ok(texts) => decode_each(&texts),
            Err(error) => Err(error),
        },
        other => Err(DecodeError::Shape { expected: Kind::Sequence, found: other.kind() }),
    }
}

/// Where the element at `i` is the first that is no string, the sequence is
/// of the wrong shape, whatever the strings before and after it hold.
pub proof fn lemma_unnest_vec_shape<T: DeserializeInnerOwned>(items: Seq<ElementView>, i: int)
    requires
        0 <= i < items.len(),
        !(items[i] is Text),
        forall|j: int| 0 <= j < i ==> (#[trigger] items[j]) is Text,
    ensures
        spec_unnest_vec::<T>(TokenView::Sequence(items)) == Err::<Seq<T>, DecodeErrorView>(
            DecodeErrorView::Shape { expected: Kind::Text, found: items[i].kind() },
        ),
{
    assert forall|j: int| 0 <= j < i implies (#[trigger] step_at(items, text_step(), j)) is Ok by {
        assert(items[j] is Text);
    }
    lemma_fails_at(items, text_step(), i);
}

/// Where every element is a string and the one at `i` is the first whose
/// content does not decode, the sequence fails with the failure of that
/// element.
pub proof fn lemma_unnest_vec_element<T: DeserializeInnerOwned>(items: Seq<ElementView>, i: int)
    requires
        0 <= i < items.len(),
        forall|j: int| 0 <= j < items.len() ==> (#[trigger] items[j]) is Text,
        T::decoded(items[i]->Text_0) is Err,
        forall|j: int| 0 <= j < i ==> T::decoded((#[trigger] items[j])->Text_0) is Ok,
    ensures
        spec_unnest_vec::<T>(TokenView::Sequence(items)) == Err::<Seq<T>, DecodeErrorView>(
            DecodeErrorView::Element { index: i, message: T::decoded(items[i]->Text_0)->Err_0 },
        ),
{
    let contents = Seq::new(items.len(), |j: int| items[j]->Text_0);
    assert forall|j: int| 0 <= j < items.len() implies (#[trigger] step_at(
        items,
        text_step(),
        j,
    )) == Ok::<Seq<char>, DecodeErrorView>(contents[j]) by {
        assert(items[j] is Text);
    }
    lemma_succeeds(items, text_step(), contents);
    assert forall|j: int| 0 <= j < i implies (#[trigger] step_at(
        contents,
        element_step::<T>(),
        j,
    )) is Ok by {
        assert(T::decoded(items[j]->Text_0) is Ok);
    }
    lemma_fails_at(contents, element_step::<T>(), i);
}

/// Whether `values` are what the elements of `items` decode to, each as a
/// nested field of its own: as many, and in the same order.
pub open spec fn unnests_elementwise<T: DeserializeInnerOwned>(
    items: Seq<ElementView>,
    values: Seq<T>,
) -> bool {
    &&& values.len() == items.len()
    &&& forall|i: int|
        #![trigger items[i]]
        #![trigger values[i]]
        0 <= i < items.len() ==> spec_unnest::<T>(items[i].alone()) == Ok::<T, DecodeErrorView>(
            values[i],
        )
}

/// A sequence decodes element by element as its elements decode alone. It
/// gives values exactly where each element, decoded as a nested field of its
/// own, gives a value: then it gives those values, as many and in the same
/// order. Where it fails, some element fails when decoded alone.
pub proof fn lemma_unnest_vec_elementwise<T: DeserializeInnerOwned>(items: Seq<ElementView>)
    ensures
        match spec_unnest_vec::<T>(TokenView::Sequence(items)) {
            Ok(values) => unnests_elementwise(items, values),
            Err(_) => exists|i: int|
                0 <= i < items.len() && spec_unnest::<T>((#[trigger] items[i]).alone()) is Err,
        },
{
    lemma_try_each(items, text_step());
    match try_each(items, text_step()) {
        Ok(contents) => {
            lemma_try_each(contents, element_step::<T>());
            match try_each(contents, element_step::<T>()) {
                Ok(values) => {
                    assert forall|i: int| 0 <= i < items.len() implies spec_unnest::<T>(
                        items[i].alone(),
                    ) == Ok::<T, DecodeErrorView>(values[i]) by {
                        assert(step_at(items, text_step(), i) == Ok::<Seq<char>, DecodeErrorView>(
                            contents[i],
                        ));
                        assert(step_at(contents, element_step::<T>(), i) == Ok::<
                            T,
                            DecodeErrorView,
                        >(values[i]));
                    }
                },
                Err(_) => {
                    let i = first_failure(contents, element_step::<T>());
                    assert(fails_first_at(contents, element_step::<T>(), i));
                    assert(step_at(items, text_step(), i) == Ok::<Seq<char>, DecodeErrorView>(
                        contents[i],
                    ));
                    assert(spec_unnest::<T>(items[i].alone()) is Err);
                },
            }
        },
        Err(_) => {
            let i = first_failure(items, text_step());
            assert(fails_first_at(items, text_step(), i));
            assert(spec_unnest::<T>(items[i].alone()) is Err);
        },
    }
}

} // verus!
