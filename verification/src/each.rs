//! One fallible step for every element of a sequence, in order, given up at
//! the first failure.

use vstd::prelude::*;

verus! {

/// What the step gives for the element at index `i`.
pub open spec fn step_at<A, B, E>(
    items: Seq<A>,
    step: spec_fn(int, A) -> Result<B, E>,
    i: int,
) -> Result<B, E> {
    step(i, items[i])
}

/// Whether the step succeeds on every element.
pub open spec fn all_succeed<A, B, E>(items: Seq<A>, step: spec_fn(int, A) -> Result<B, E>) -> bool {
    forall|i: int| 0 <= i < items.len() ==> (#[trigger] step_at(items, step, i)) is Ok
}

/// Whether `i` is the first index at which the step fails.
pub open spec fn fails_first_at<A, B, E>(
    items: Seq<A>,
    step: spec_fn(int, A) -> Result<B, E>,
    i: int,
) -> bool {
    &&& 0 <= i < items.len()
    &&& step_at(items, step, i) is Err
    &&& forall|j: int| 0 <= j < i ==> (#[trigger] step_at(items, step, j)) is Ok
}

/// The first index at which the step fails, where it fails at all.
pub open spec fn first_failure<A, B, E>(
    items: Seq<A>,
    step: spec_fn(int, A) -> Result<B, E>,
) -> int {
    choose|i: int| fails_first_at(items, step, i)
}

/// The results of the step on every element, in order, where it succeeds on
/// all of them; else the error of the first element on which it fails.
pub open spec fn try_each<A, B, E>(items: Seq<A>, step: spec_fn(int, A) -> Result<B, E>) -> Result<
    Seq<B>,
    E,
> {
    if all_succeed(items, step) {
        Ok(Seq::new(items.len(), |i: int| step_at(items, step, i)->Ok_0))
    } else {
        Err(step_at(items, step, first_failure(items, step))->Err_0)
    }
}

/// Where the step fails somewhere, there is a first index at which it fails.
pub proof fn lemma_some_failure_is_first<A, B, E>(
    items: Seq<A>,
    step: spec_fn(int, A) -> Result<B, E>,
    k: int,
)
    requires
        0 <= k < items.len(),
        step_at(items, step, k) is Err,
    ensures
        fails_first_at(items, step, first_failure(items, step)),
        first_failure(items, step) <= k,
    decreases k,
{
    if exists|j: int| 0 <= j < k && (#[trigger] step_at(items, step, j)) is Err {
        let j = choose|j: int| 0 <= j < k && (#[trigger] step_at(items, step, j)) is Err;
        lemma_some_failure_is_first(items, step, j);
    } else {
        assert(fails_first_at(items, step, k));
        lemma_first_failure_is_unique(items, step, k, first_failure(items, step));
    }
}

/// No two indices are both the first at which the step fails.
pub proof fn lemma_first_failure_is_unique<A, B, E>(
    items: Seq<A>,
    step: spec_fn(int, A) -> Result<B, E>,
    i: int,
    j: int,
)
    requires
        fails_first_at(items, step, i),
        fails_first_at(items, step, j),
    ensures
        i == j,
{
    if i < j {
        assert(step_at(items, step, i) is Ok);
    }
    if j < i {
        assert(step_at(items, step, j) is Ok);
    }
}

/// Where the step fails first at `i`, the whole gives the error of that step.
pub proof fn lemma_fails_at<A, B, E>(items: Seq<A>, step: spec_fn(int, A) -> Result<B, E>, i: int)
    requires
        fails_first_at(items, step, i),
    ensures
        first_failure(items, step) == i,
        try_each(items, step) == Err::<Seq<B>, E>(step_at(items, step, i)->Err_0),
{
    lemma_first_failure_is_unique(items, step, i, first_failure(items, step));
    assert(!all_succeed(items, step));
}

/// Where the step gives `out[i]` for every element `i`, the whole gives `out`.
pub proof fn lemma_succeeds<A, B, E>(
    items: Seq<A>,
    step: spec_fn(int, A) -> Result<B, E>,
    out: Seq<B>,
)
    requires
        out.len() == items.len(),
        forall|i: int|
            0 <= i < items.len() ==> (#[trigger] step_at(items, step, i)) == Ok::<B, E>(out[i]),
    ensures
        try_each(items, step) == Ok::<Seq<B>, E>(out),
{
    assert(all_succeed(items, step));
    assert(Seq::new(items.len(), |i: int| step_at(items, step, i)->Ok_0) =~= out);
}

/// The whole succeeds exactly where every step does, and fails exactly with
/// the error of the first step that fails.
pub proof fn lemma_try_each<A, B, E>(items: Seq<A>, step: spec_fn(int, A) -> Result<B, E>)
    ensures
        match try_each(items, step) {
            Ok(out) => {
                &&& out.len() == items.len()
                &&& forall|i: int|
                    0 <= i < items.len() ==> (#[trigger] step_at(items, step, i)) == Ok::<B, E>(
                        out[i],
                    )
            },
            Err(error) => {
                &&& fails_first_at(items, step, first_failure(items, step))
                &&& step_at(items, step, first_failure(items, step)) == Err::<B, E>(error)
            },
        },
{
    if !all_succeed(items, step) {
        let k = choose|k: int|
            0 <= k < items.len() && !((#[trigger] step_at(items, step, k)) is Ok);
        lemma_some_failure_is_first(items, step, k);
    }
}

} // verus!
