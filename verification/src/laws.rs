//! What holds of every chain, proved from the meaning that [`Chained`] gives
//! to [`Link`] and [`Chain`].
//!
//! The laws are stated for steps of any type. A caller whose steps are
//! closures, for which Verus does not unfold `can_eval` and `yields` by
//! itself, learns from a call of a law what the definitions say.
use vstd::prelude::*;
use crate::chain::{Chain, Chained};
use crate::link::Link;

verus! {

/// Evaluating `chain` can return nothing but `result`.
pub open spec fn evaluates_to<C: Chained>(chain: C, result: C::Item) -> bool {
    forall|out: C::Item| #[trigger] chain.yields(out) ==> out == result
}

/// Whenever `fun` returns, it returns what `model` says of its argument.
pub open spec fn computes<A, B, F: FnOnce(A) -> B>(fun: F, model: spec_fn(A) -> B) -> bool {
    forall|arg: A, out: B| #[trigger] call_ensures(fun, (arg,), out) ==> out == model(arg)
}

/// All evaluations of `chain` end in one and the same result.
pub open spec fn determined<C: Chained>(chain: C) -> bool {
    forall|a: C::Item, b: C::Item| #[trigger]
        chain.yields(a) && #[trigger] chain.yields(b) ==> a == b
}

/// `fun` is a function of its argument: one argument, one result.
pub open spec fn single_valued<A, B, F: FnOnce(A) -> B>(fun: F) -> bool {
    forall|arg: A, a: B, b: B| #[trigger]
        call_ensures(fun, (arg,), a) && #[trigger] call_ensures(fun, (arg,), b) ==> a == b
}

/// Cloning a value of type `X` gives back an equal value, whatever the value.
pub open spec fn clones_exactly<X: Clone>() -> bool {
    forall|source: X, copy: X| #[trigger] cloned(source, copy) ==> copy == source
}

/// A chain without steps can always be evaluated, and evaluates to the value
/// that it was started from, unchanged.
pub proof fn law_no_step_is_identity<T>(link: Link<T>)
    ensures
        link.can_eval(),
        link.yields(link.value()),
        evaluates_to(link, link.value()),
        determined(link),
{
}

/// The first step is applied to the very value that the chain was started
/// from. Where that value is an exclusive borrow, what the step does to it is
/// done to the borrowed value, and shows there once the chain is evaluated.
pub proof fn law_first_step_gets_the_value<T, F, U>(chain: Chain<Link<T>, F, U>, out: U) where
    F: FnOnce(T) -> U,

    ensures
        chain.can_eval() <==> call_requires(chain.step(), (chain.pred().value(),)),
        chain.yields(out) <==> call_ensures(chain.step(), (chain.pred().value(),), out),
{
    assert(chain.pred().yields(chain.pred().value()));
}

/// A chain can be evaluated exactly when its predecessor can and the last
/// step accepts every result of the predecessor.
pub proof fn law_last_step_decides<C, F, T>(chain: Chain<C, F, T>) where
    C: Chained,
    F: FnOnce(C::Item) -> T,

    ensures
        chain.can_eval() <==> chain.pred().can_eval() && forall|mid: C::Item| #[trigger]
            chain.pred().yields(mid) ==> call_requires(chain.step(), (mid,)),
{
}

/// The step attached last runs last, on what the steps before it produced:
/// the results of a chain are the results of its last step on the results of
/// its predecessor, and no others.
pub proof fn law_last_step_runs_last<C, F, T>(chain: Chain<C, F, T>, out: T) where
    C: Chained,
    F: FnOnce(C::Item) -> T,

    ensures
        chain.yields(out) <==> exists|mid: C::Item| #[trigger]
            chain.pred().yields(mid) && call_ensures(chain.step(), (mid,), out),
{
}

/// One more step, in the order of attachment: if the steps so far evaluate to
/// `before` and the last step computes `model`, the chain evaluates to
/// `model(before)`. Together with [`law_no_step_is_identity`] this gives, step
/// by step, the result of a chain of any length.
pub proof fn law_steps_apply_in_order<C, F, T>(
    chain: Chain<C, F, T>,
    before: C::Item,
    model: spec_fn(C::Item) -> T,
) where C: Chained, F: FnOnce(C::Item) -> T
    requires
        evaluates_to(chain.pred(), before),
        computes(chain.step(), model),
    ensures
        evaluates_to(chain, model(before)),
{
}

/// Three steps attached to a value as first, second and third evaluate to
/// `third(second(first(value)))`.
pub proof fn law_three_steps_in_order<A, B, C, D, F1, F2, F3>(
    chain: Chain<Chain<Chain<Link<A>, F1, B>, F2, C>, F3, D>,
    first: spec_fn(A) -> B,
    second: spec_fn(B) -> C,
    third: spec_fn(C) -> D,
) where F1: FnOnce(A) -> B, F2: FnOnce(B) -> C, F3: FnOnce(C) -> D
    requires
        computes(chain.pred().pred().step(), first),
        computes(chain.pred().step(), second),
        computes(chain.step(), third),
    ensures
        evaluates_to(chain, third(second(first(chain.pred().pred().pred().value())))),
{
    let start = chain.pred().pred().pred();
    law_no_step_is_identity(start);
    law_steps_apply_in_order(chain.pred().pred(), start.value(), first);
    law_steps_apply_in_order(chain.pred(), first(start.value()), second);
    law_steps_apply_in_order(chain, second(first(start.value())), third);
}

/// A chain whose predecessor has one result and whose last step is a function
/// of its argument has one result.
pub proof fn law_determined_by_steps<C, F, T>(chain: Chain<C, F, T>) where
    C: Chained,
    F: FnOnce(C::Item) -> T,

    requires
        determined(chain.pred()),
        single_valued(chain.step()),
    ensures
        determined(chain),
{
}

/// A link over a value that clones exactly clones exactly.
pub proof fn law_link_clones_exactly<T: Clone>()
    requires
        clones_exactly::<T>(),
    ensures
        clones_exactly::<Link<T>>(),
{
    assert forall|source: Link<T>, copy: Link<T>| #[trigger]
        cloned(source, copy) implies copy == source by {
        assert(cloned(source.value(), copy.value()) || copy == source);
        copy.law_value_makes_the_link(source);
    }
}

/// A chain whose predecessor and last step clone exactly clones exactly.
pub proof fn law_chain_clones_exactly<C: Clone, F: Clone, T>()
    requires
        clones_exactly::<C>(),
        clones_exactly::<F>(),
    ensures
        clones_exactly::<Chain<C, F, T>>(),
{
    assert forall|source: Chain<C, F, T>, copy: Chain<C, F, T>| #[trigger]
        cloned(source, copy) implies copy == source by {
        assert(cloned(source.pred(), copy.pred()) || copy == source);
        assert(cloned(source.step(), copy.step()) || copy == source);
        copy.law_parts_make_the_chain(source);
    }
}

/// A chain and a clone of it that was made before either is evaluated
/// evaluate to equal results, where cloning is exact and the chain has one
/// result at all.
pub proof fn law_copies_agree<X: Chained + Clone>(
    chain: X,
    copy: X,
    result: X::Item,
    result_of_copy: X::Item,
)
    requires
        cloned(chain, copy),
        clones_exactly::<X>(),
        determined(chain),
        chain.yields(result),
        copy.yields(result_of_copy),
    ensures
        result == result_of_copy,
{
}

} // verus!
