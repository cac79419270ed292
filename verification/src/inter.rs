use core::ops::{Deref, DerefMut};
use vstd::prelude::*;
use crate::chain::{Chain, Chained};
use crate::link::Link;

verus! {

/// Starts a chain from any value and attaches the first step to it, under the
/// ownership that the method names. Every type has these methods.
///
/// None of them evaluates anything. Each says of the chain it returns that
/// it holds `fun` as it was given, when it can be evaluated and what it
/// yields. What the chain was started from is said where it can be named:
/// the value, a clone of it, the borrow itself, or what `deref` or
/// `deref_mut` returned for it. Verus has no name for what `as_ref` and
/// `as_mut` return, and the two methods that call them speak of the borrow
/// that the chain holds.
pub trait InterChained {
    /// Starts the chain from the value itself.
    fn into_chained<T, F: FnOnce(Self) -> T>(self, fun: F) -> (chain: Chain<Link<Self>, F, T>) where
        Self: Sized,

        ensures
            chain.pred().value() == self,
            chain.step() == fun,
            chain.can_eval() <==> call_requires(fun, (self,)),
            forall|out: T| #[trigger] chain.yields(out) <==> call_ensures(fun, (self,), out),
    {
        Link::new(self).chain(fun)
    }

    /// Starts the chain from a clone of the value, and leaves the value alone.
    fn to_chained<T, F: FnOnce(Self) -> T>(&self, fun: F) -> (chain: Chain<Link<Self>, F, T>) where
        Self: Clone,

        ensures
            cloned(*self, chain.pred().value()),
            chain.step() == fun,
            chain.can_eval() <==> call_requires(fun, (chain.pred().value(),)),
            forall|out: T| #[trigger]
                chain.yields(out) <==> call_ensures(fun, (chain.pred().value(),), out),
    {
        Link::new(self.clone()).chain(fun)
    }

    /// Starts the chain from a shared borrow of the value.
    fn chained<T, F: FnOnce(&Self) -> T>(&self, fun: F) -> (chain: Chain<Link<&Self>, F, T>)
        ensures
            chain.pred().value() == self,
            chain.step() == fun,
            chain.can_eval() <==> call_requires(fun, (self,)),
            forall|out: T| #[trigger] chain.yields(out) <==> call_ensures(fun, (self,), out),
    {
        Link::new(self).chain(fun)
    }

    /// Starts the chain from an exclusive borrow of the value. The chain holds
    /// the very borrow it was given: the value behind it is untouched until
    /// the chain is evaluated, and what the steps then do to it is done to
    /// the value that was borrowed.
    fn chained_mut<T, F: FnOnce(&mut Self) -> T>(&mut self, fun: F) -> (chain: Chain<
        Link<&mut Self>,
        F,
        T,
    >)
        ensures
            chain.pred().value() == self,
            chain.step() == fun,
            chain.can_eval() <==> call_requires(fun, (self,)),
            forall|out: T| #[trigger] chain.yields(out) <==> call_ensures(fun, (self,), out),
    {
        Link::new(self).chain(fun)
    }

    /// Starts the chain from a shared borrow of what the value dereferences
    /// to: the chain holds what `deref` returned for the value.
    fn chained_deref<D, T, F: FnOnce(&Self::Target) -> T>(&self, fun: F) -> (chain: Chain<
        Link<&Self::Target>,
        F,
        T,
    >) where Self: Deref<Target = D>, <Self as Deref>::Target: Sized
        ensures
            call_ensures(Self::deref, (self,), chain.pred().value()),
            chain.step() == fun,
            chain.can_eval() <==> call_requires(fun, (chain.pred().value(),)),
            forall|out: T| #[trigger]
                chain.yields(out) <==> call_ensures(fun, (chain.pred().value(),), out),
    {
        Link::new(self.deref()).chain(fun)
    }

    /// Starts the chain from an exclusive borrow of what the value
    /// dereferences to: the chain holds what `deref_mut` returned for a
    /// borrow of the whole value. That borrow, `whole`, starts from the value
    /// as it was and ends where `self` ends, so that what the steps do to the
    /// target shows in the value as far as `deref_mut` says it does.
    fn chained_deref_mut<D, T, F: FnOnce(&mut Self::Target) -> T>(&mut self, fun: F) -> (chain:
        Chain<Link<&mut Self::Target>, F, T>) where
        Self: DerefMut<Target = D>,
        <Self as Deref>::Target: Sized,

        ensures
            exists|whole: &mut Self|
                &*whole == &*old(self) && &*final(whole) == &*final(self) && call_ensures(
                    Self::deref_mut,
                    (whole,),
                    chain.pred().value(),
                ),
            chain.step() == fun,
            chain.can_eval() <==> call_requires(fun, (chain.pred().value(),)),
            forall|out: T| #[trigger]
                chain.yields(out) <==> call_ensures(fun, (chain.pred().value(),), out),
    {
        Link::new(self.deref_mut()).chain(fun)
    }

    /// Starts the chain from a shared borrow of the value seen as a `B`.
    /// Which borrow that is is for the implementation of `AsRef` to say; the
    /// contract speaks of the borrow that the chain holds.
    fn chained_as_ref<B: ?Sized, T, F: FnOnce(&B) -> T>(&self, fun: F) -> (chain: Chain<
        Link<&B>,
        F,
        T,
    >) where Self: AsRef<B>
        ensures
            chain.step() == fun,
            chain.can_eval() <==> call_requires(fun, (chain.pred().value(),)),
            forall|out: T| #[trigger]
                chain.yields(out) <==> call_ensures(fun, (chain.pred().value(),), out),
    {
        Link::new(shared_view(self)).chain(fun)
    }

    /// Starts the chain from an exclusive borrow of the value seen as a `B`.
    /// Which borrow that is is for the implementation of `AsMut` to say; the
    /// contract speaks of the borrow that the chain holds.
    fn chained_as_mut<B: ?Sized, T, F: FnOnce(&mut B) -> T>(&mut self, fun: F) -> (chain: Chain<
        Link<&mut B>,
        F,
        T,
    >) where Self: AsMut<B>
        ensures
            chain.step() == fun,
            chain.can_eval() <==> call_requires(fun, (chain.pred().value(),)),
            forall|out: T| #[trigger]
                chain.yields(out) <==> call_ensures(fun, (chain.pred().value(),), out),
    {
        Link::new(exclusive_view(self)).chain(fun)
    }
}

impl<T> InterChained for T {
}

/// Calls `AsRef::as_ref`, of which vstd says nothing. The borrow that comes
/// back is whatever the implementation for `S` chooses, so nothing is claimed
/// of it.
#[verifier::external_body]
fn shared_view<S: AsRef<B> + ?Sized, B: ?Sized>(value: &S) -> (view: &B) {
    value.as_ref()
}

/// Calls `AsMut::as_mut`, of which vstd says nothing. Nothing is claimed of
/// the borrow that comes back, nor of what becomes of `value` through it.
#[verifier::external_body]
fn exclusive_view<S: AsMut<B> + ?Sized, B: ?Sized>(value: &mut S) -> (view: &mut B) {
    value.as_mut()
}

} // verus!
