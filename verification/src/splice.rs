//! Splicing: a transformation that combines two values of one kind.
//!
//! [`Spliceable`] binds the result of `splice` to the receiver's own type:
//! a cherry tree spliced with a cherry tree is again a cherry tree, and the
//! spec function [`Spliceable::spliced`] pins exactly which value comes back.

use vstd::prelude::*;

verus! {

/// A kind of value that can be spliced with another value of the same kind,
/// yielding a value of that kind again.
pub trait Spliceable: Sized {
    /// The value splicing `self` with `other` yields.
    spec fn spliced(&self, other: &Self) -> Self;

    /// Combine `self` with `other` into a new value of the same type.
    fn splice(&self, other: &Self) -> (r: Self)
        ensures
            r == self.spliced(other),
    ;
}

/// A cherry tree. It carries no state: splicing is the act, not the data.
#[derive(Clone, Copy, Debug, PartialEq, Eq, Structural)]
pub struct CherryTree {}

impl Spliceable for CherryTree {
    open spec fn spliced(&self, other: &Self) -> CherryTree {
        CherryTree {  }
    }

    fn splice(&self, other: &Self) -> (r: Self) {
        CherryTree {  }
    }
}

/// A mammoth. Splicing two mammoths yields a mammoth, never a hybrid:
/// the `Spliceable` contract ties the result to the receiver's type.
#[derive(Clone, Copy, Debug, PartialEq, Eq, Structural)]
pub struct Mammoth {}

impl Spliceable for Mammoth {
    open spec fn spliced(&self, other: &Self) -> Mammoth {
        Mammoth {  }
    }

    fn splice(&self, other: &Self) -> (r: Self) {
        Mammoth {  }
    }
}

} // verus!
