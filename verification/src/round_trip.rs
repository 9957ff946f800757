//! What is written as a nested field is read back from it.

use vstd::prelude::*;
use crate::de::{element_step, spec_unnest, spec_unnest_vec, text_step, DeserializeInnerOwned};
use crate::each::{lemma_succeeds, step_at};
use crate::error::{DecodeErrorView, EncodeErrorView};
use crate::optional::null_text;
use crate::ser::{spec_nest, spec_nest_iter, texts_as_elements, write_step, SerializeInner};
use crate::token::TokenView;

verus! {

/// Whether the value has a document text, and that text reads back as the
/// value.
pub open spec fn round_trips<T: DeserializeInnerOwned + SerializeInner>(value: T) -> bool {
    match value.encoded() {
        Ok(text) => T::decoded(text) == Ok::<T, Seq<char>>(value),
        Err(_) => false,
    }
}

/// A value whose document text reads back as the value comes back unchanged
/// from the nested field that it was encoded as.
pub proof fn lemma_round_trip<T: DeserializeInnerOwned + SerializeInner>(value: T)
    requires
        round_trips(value),
    ensures
        spec_nest(value) is Ok,
        spec_unnest::<T>(spec_nest(value)->Ok_0) == Ok::<T, DecodeErrorView>(value),
{
}

/// A sequence of values, each of which has a document text that reads back as
/// the value, comes back unchanged, in order, from the sequence of nested
/// fields that it was encoded as.
pub proof fn lemma_round_trip_seq<T: DeserializeInnerOwned + SerializeInner>(values: Seq<T>)
    requires
        forall|i: int| 0 <= i < values.len() ==> round_trips(#[trigger] values[i]),
    ensures
        spec_nest_iter(values) is Ok,
        spec_unnest_vec::<T>(spec_nest_iter(values)->Ok_0) == Ok::<Seq<T>, DecodeErrorView>(
            values,
        ),
{
    let texts = Seq::new(values.len(), |i: int| values[i].encoded()->Ok_0);
    assert forall|i: int| 0 <= i < values.len() implies (#[trigger] step_at(
        values,
        write_step::<T>(),
        i,
    )) == Ok::<Seq<char>, EncodeErrorView>(texts[i]) by {
        assert(round_trips(values[i]));
    }
    lemma_succeeds(values, write_step::<T>(), texts);
    let tokens = texts_as_elements(texts);
    assert(spec_nest_iter(values) == Ok::<TokenView, EncodeErrorView>(TokenView::Sequence(tokens)));
    lemma_succeeds(tokens, text_step(), texts);
    assert forall|i: int| 0 <= i < texts.len() implies (#[trigger] step_at(
        texts,
        element_step::<T>(),
        i,
    )) == Ok::<T, DecodeErrorView>(values[i]) by {
        assert(round_trips(values[i]));
    }
    lemma_succeeds(texts, element_step::<T>(), values);
}

/// The absent value always comes back from its text. A present value comes
/// back exactly where it does so on its own and its text is not the one that
/// stands for the absent value.
pub proof fn lemma_optional_round_trips<T: DeserializeInnerOwned + SerializeInner>(
    value: Option<T>,
)
    ensures
        round_trips(value) <==> (value matches Some(inner) ==> round_trips(inner)
            && inner.encoded() != Ok::<Seq<char>, Seq<char>>(null_text())),
{
}

} // verus!
