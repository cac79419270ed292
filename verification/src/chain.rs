use core::marker::PhantomData;
use vstd::prelude::*;

verus! {

/// A value that can be consumed once to produce its [`Item`](Chained::Item).
///
/// The two spec functions are the whole meaning of an evaluable: `can_eval`
/// says when it may be evaluated, and `yields` relates it to every value that
/// the evaluation can hand back.
pub trait Chained {
    /// What the evaluation produces.
    type Item;

    /// Every step accepts whatever can reach it.
    spec fn can_eval(self) -> bool;

    /// `out` is a possible result of evaluating `self`.
    spec fn yields(self, out: Self::Item) -> bool;

    /// Consumes the chain: runs the steps in the order of their attachment
    /// and returns the result of the last one.
    fn eval(self) -> (out: Self::Item)
        requires
            self.can_eval(),
        ensures
            self.yields(out),
    ;

    /// Attaches `fun` as the next step. Nothing is evaluated, and `fun` need
    /// not even be callable yet: the new chain holds `self` and `fun` as they
    /// were given. When it can be evaluated and what it yields then follows
    /// from the two parts, as [`Chain`] defines `can_eval` and `yields`.
    fn chain<F, T>(self, fun: F) -> (chain: Chain<Self, F, T>) where
        Self: Sized,
        F: FnOnce(Self::Item) -> T,

        ensures
            chain.pred() == self,
            chain.step() == fun,
    {
        Chain { val: self, fun, out: PhantomData }
    }
}

/// A chain extended by one step: a predecessor, and the function that will be
/// applied to what the predecessor yields.
///
/// `Chain` repeats `chain` and `eval` as methods of its own, which method
/// resolution prefers wherever the type of the chain is known. Verus unfolds
/// the definitions of `can_eval` and `yields` only for steps of a type that it
/// knows to implement `FnOnce`, which it does of a type parameter with that
/// bound and does not of a closure or a named function. The contracts of
/// these methods therefore spell out what the definitions say of the new
/// chain, and a caller that holds closures needs no unfolding.
pub struct Chain<C, F, T> {
    val: C,
    fun: F,
    /// Names `T`, what the step returns. No `T` is stored, and behind
    /// `Ghost` the marker leaves `Send` and `Sync` to the predecessor and the
    /// step alone.
    out: PhantomData<Ghost<T>>,
}

impl<C, F, T> Chain<C, F, T> {
    /// The chain that the last step was attached to.
    pub closed spec fn pred(self) -> C {
        self.val
    }

    /// The step that was attached last.
    pub closed spec fn step(self) -> F {
        self.fun
    }

    /// A chain is its predecessor and its last step, and nothing more.
    pub proof fn law_parts_make_the_chain(self, other: Self)
        requires
            self.pred() == other.pred(),
            self.step() == other.step(),
        ensures
            self == other,
    {
    }
}

impl<C, F, T> Chain<C, F, T> where C: Chained, F: FnOnce(C::Item) -> T {
    /// Evaluates the predecessor, then applies the last step to its result.
    pub fn eval(self) -> (out: T)
        requires
            self.can_eval(),
        ensures
            self.yields(out),
    {
        (self.fun)(self.val.eval())
    }

    /// Attaches `fun` behind the steps that `self` already holds. Nothing is
    /// evaluated.
    pub fn chain<G, U>(self, fun: G) -> (chain: Chain<Self, G, U>) where G: FnOnce(T) -> U
        ensures
            chain.pred() == self,
            chain.step() == fun,
            chain.can_eval() <==> self.can_eval() && forall|mid: T| #[trigger]
                self.yields(mid) ==> call_requires(fun, (mid,)),
            forall|out: U| #[trigger]
                chain.yields(out) <==> exists|mid: T| #[trigger]
                    self.yields(mid) && call_ensures(fun, (mid,), out),
    {
        Chain { val: self, fun, out: PhantomData }
    }
}

impl<C: Clone, F: Clone, T> Clone for Chain<C, F, T> {
    /// Clones the predecessor and the last step. Neither chain is evaluated.
    fn clone(&self) -> (copy: Self)
        ensures
            cloned(self.pred(), copy.pred()),
            cloned(self.step(), copy.step()),
    {
        Chain { val: self.val.clone(), fun: self.fun.clone(), out: PhantomData }
    }
}

impl<C, F, T> Chained for Chain<C, F, T> where C: Chained, F: FnOnce(C::Item) -> T {
    type Item = T;

    open spec fn can_eval(self) -> bool {
        &&& self.pred().can_eval()
        &&& forall|mid: C::Item| #[trigger]
            self.pred().yields(mid) ==> call_requires(self.step(), (mid,))
    }

    open spec fn yields(self, out: T) -> bool {
        exists|mid: C::Item| #[trigger]
            self.pred().yields(mid) && call_ensures(self.step(), (mid,), out)
    }

    fn eval(self) -> (out: T) {
        Chain::eval(self)
    }
}

} // verus!
