//! The functions that callers hand to parsers: what makes an error of a position, what
//! transforms an output.
//!
//! A parser calls such a function through [`Apply`], which says on which arguments the
//! function may be called and which results it may give. Every Rust function or closure
//! of one, two or four arguments is such a function, with the contract it was written
//! with. A type of the caller's own can be one too.
use vstd::prelude::*;
use crate::region::Position;

verus! {

/// A function from `Args`, a tuple of the arguments, to `Output`.
pub trait Apply<Args> {
    type Output;

    /// The function may be called on `args`.
    spec fn defined_on(&self, args: Args) -> bool;

    /// `out` is a result of the function on `args`.
    spec fn maps(&self, args: Args, out: Self::Output) -> bool;

    fn apply(&self, args: Args) -> (out: Self::Output)
        requires
            self.defined_on(args),
        ensures
            self.maps(args, out),
    ;
}

impl<F, A, Output> Apply<(A,)> for F where F: Fn(A) -> Output {
    type Output = Output;

    open spec fn defined_on(&self, args: (A,)) -> bool {
        self.requires(args)
    }

    open spec fn maps(&self, args: (A,), out: Output) -> bool {
        self.ensures(args, out)
    }

    fn apply(&self, args: (A,)) -> (out: Output) {
        self(args.0)
    }
}

impl<F, A, B, Output> Apply<(A, B)> for F where F: Fn(A, B) -> Output {
    type Output = Output;

    open spec fn defined_on(&self, args: (A, B)) -> bool {
        self.requires(args)
    }

    open spec fn maps(&self, args: (A, B), out: Output) -> bool {
        self.ensures(args, out)
    }

    fn apply(&self, args: (A, B)) -> (out: Output) {
        self(args.0, args.1)
    }
}

impl<F, A, B, C, D, Output> Apply<(A, B, C, D)> for F where F: Fn(A, B, C, D) -> Output {
    type Output = Output;

    open spec fn defined_on(&self, args: (A, B, C, D)) -> bool {
        self.requires(args)
    }

    open spec fn maps(&self, args: (A, B, C, D), out: Output) -> bool {
        self.ensures(args, out)
    }

    fn apply(&self, args: (A, B, C, D)) -> (out: Output) {
        self(args.0, args.1, args.2, args.3)
    }
}

/// `to_error` may be called on every position.
pub open spec fn total<F: Apply<(Position,)>>(to_error: F) -> bool {
    forall|pos: Position| #[trigger] to_error.defined_on((pos,))
}

} // verus!
