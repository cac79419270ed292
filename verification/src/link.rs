use vstd::prelude::*;
use crate::chain::{Chain, Chained};

verus! {

/// A chain of length zero: the node that every chain starts from. It holds
/// the initial value and does nothing to it.
#[derive(Debug)]
pub struct Link<T>(T);

impl<T> Link<T> {
    /// The value that the link holds.
    pub closed spec fn value(self) -> T {
        self.0
    }

    /// A link is the value that it holds, and nothing more.
    pub proof fn law_value_makes_the_link(self, other: Self)
        requires
            self.value() == other.value(),
        ensures
            self == other,
    {
    }

    /// Starts a chain from `val`.
    pub fn new(val: T) -> (link: Self)
        ensures
            link.value() == val,
    {
        Link(val)
    }

    /// Hands the value back as it was given.
    pub fn eval(self) -> (out: T)
        ensures
            out == self.value(),
    {
        self.0
    }

    /// Attaches the first step. Nothing is evaluated.
    pub fn chain<F, U>(self, fun: F) -> (chain: Chain<Self, F, U>) where F: FnOnce(T) -> U
        ensures
            chain.pred() == self,
            chain.step() == fun,
            chain.can_eval() <==> call_requires(fun, (self.value(),)),
            forall|out: U| #[trigger]
                chain.yields(out) <==> call_ensures(fun, (self.value(),), out),
    {
        let ghost start = self;
        let chain = Chained::chain(self, fun);
        assert(start.yields(start.value()));
        chain
    }
}

impl<T: Clone> Clone for Link<T> {
    /// Starts a second chain from a clone of the value.
    fn clone(&self) -> (copy: Self)
        ensures
            cloned(self.value(), copy.value()),
    {
        Link(self.0.clone())
    }
}

impl<T> From<T> for Link<T> {
    /// Starts a chain from `value`, as [`Link::new`] does.
    fn from(value: T) -> (link: Self)
        ensures
            link.value() == value,
    {
        Link::new(value)
    }
}

impl<T> vstd::std_specs::convert::FromSpecImpl<T> for Link<T> {
    open spec fn obeys_from_spec() -> bool {
        true
    }

    closed spec fn from_spec(value: T) -> Self {
        Link(value)
    }
}

impl<T> Chained for Link<T> {
    type Item = T;

    open spec fn can_eval(self) -> bool {
        true
    }

    open spec fn yields(self, out: T) -> bool {
        out == self.value()
    }

    fn eval(self) -> (out: T) {
        Link::eval(self)
    }
}

} // verus!
