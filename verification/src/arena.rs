//! The arena that everything a parse builds is allocated in.
//!
//! The caller owns the arena for the whole parse and frees it in one piece afterwards.
//! Parsers only borrow it.
use vstd::prelude::*;

verus! {

/// The arena type of bumpalo, carried through as it is.
#[verifier::external_type_specification]
#[verifier::external_body]
pub struct ExBump<const MIN_ALIGN: usize>(bumpalo::Bump<MIN_ALIGN>);

/// Moves `value` into the arena, by `bumpalo::Bump::alloc`, and hands back a shared
/// reference to it in place of the exclusive one that `alloc` gives.
///
/// Believed of `alloc`, not proved: the place it hands back holds the value it was
/// given. It does not return where the arena cannot reserve the space.
#[verifier::external_body]
pub(crate) fn alloc_in<'a, T>(arena: &'a bumpalo::Bump, value: T) -> (r: &'a T)
    ensures
        *r == value,
{
    arena.alloc(value)
}

} // verus!
