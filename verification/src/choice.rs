//! Trying one parser, and another where the first found nothing.
//!
//! An alternative that fails without progress leaves the state as it was, and the
//! next one is tried from there. An alternative that fails after it made progress
//! has been chosen: its failure is the failure of the whole, and no further
//! alternative is tried.
use vstd::prelude::*;
use bumpalo::Bump;
use crate::parser::{fails_with, sound_step, succeeds_with, Either, ParseResult, Parser, Progress};
use crate::state::State;

verus! {

/// The first of two alternatives that applies. See [`one_of`].
pub struct OneOf<PA, PB> {
    pub first: PA,
    pub second: PB,
}

impl<'a, PA, PB, T, E> Parser<'a, T, E> for OneOf<PA, PB> where
    PA: Parser<'a, T, E>,
    PB: Parser<'a, T, E>,
 {
    open spec fn wf(&self, min_indent: u32) -> bool {
        self.first.wf(min_indent) && self.second.wf(min_indent)
    }

    open spec fn yields(&self, state: State<'a>, min_indent: u32, res: ParseResult<'a, T, E>) -> bool {
        exists|r1: ParseResult<'a, T, E>|
            #[trigger] self.first.yields(state, min_indent, r1) && sound_step(state, r1)
                && match r1 {
                Ok(_) => res == r1,
                Err((Progress::MadeProgress, _)) => res == r1,
                Err((Progress::NoProgress, _)) => self.second.yields(state, min_indent, res)
                    && sound_step(state, res),
            }
    }

    fn parse(&self, arena: &'a Bump, state: State<'a>, min_indent: u32) -> (res: ParseResult<
        'a,
        T,
        E,
    >) {
        let original_state = state.clone();
        match self.first.parse(arena, state, min_indent) {
            Ok(valid) => Ok(valid),
            Err((Progress::MadeProgress, fail)) => Err((Progress::MadeProgress, fail)),
            Err((Progress::NoProgress, _)) => self.second.parse(arena, original_state, min_indent),
        }
    }
}

/// Runs `p1`; where it fails without progress, runs `p2` from the same state. More
/// than two alternatives are tried in order by nesting: `one_of(a, one_of(b, c))`.
pub fn one_of<'a, PA, PB, T, E>(p1: PA, p2: PB) -> (p: OneOf<PA, PB>) where
    PA: Parser<'a, T, E>,
    PB: Parser<'a, T, E>,

    ensures
        p.first == p1,
        p.second == p2,
{
    OneOf { first: p1, second: p2 }
}

/// The outcome `res` with its output marked as that of the first alternative.
pub open spec fn as_first<'a, A, B, E>(res: ParseResult<'a, A, E>) -> ParseResult<
    'a,
    Either<A, B>,
    E,
> {
    match res {
        Ok((progress, out, next)) => Ok((progress, Either::First(out), next)),
        Err(fail) => Err(fail),
    }
}

/// The outcome `res` with its output marked as that of the second alternative.
pub open spec fn as_second<'a, A, B, E>(res: ParseResult<'a, B, E>) -> ParseResult<
    'a,
    Either<A, B>,
    E,
> {
    match res {
        Ok((progress, out, next)) => Ok((progress, Either::Second(out), next)),
        Err(fail) => Err(fail),
    }
}

/// The first of two alternatives with different outputs. See [`either`].
pub struct EitherOf<PA, PB> {
    pub first: PA,
    pub second: PB,
}

impl<'a, PA, PB, A, B, E> Parser<'a, Either<A, B>, E> for EitherOf<PA, PB> where
    PA: Parser<'a, A, E>,
    PB: Parser<'a, B, E>,
 {
    open spec fn wf(&self, min_indent: u32) -> bool {
        self.first.wf(min_indent) && self.second.wf(min_indent)
    }

    open spec fn yields(
        &self,
        state: State<'a>,
        min_indent: u32,
        res: ParseResult<'a, Either<A, B>, E>,
    ) -> bool {
        exists|r1: ParseResult<'a, A, E>|
            #[trigger] self.first.yields(state, min_indent, r1) && sound_step(state, r1)
                && match r1 {
                Ok(_) => res == as_first::<A, B, E>(r1),
                Err((Progress::MadeProgress, _)) => res == as_first::<A, B, E>(r1),
                Err((Progress::NoProgress, _)) => exists|r2: ParseResult<'a, B, E>|
                    #[trigger] self.second.yields(state, min_indent, r2) && sound_step(state, r2)
                        && res == as_second::<A, B, E>(r2),
            }
    }

    fn parse(&self, arena: &'a Bump, state: State<'a>, min_indent: u32) -> (res: ParseResult<
        'a,
        Either<A, B>,
        E,
    >) {
        let original_state = state.clone();
        match self.first.parse(arena, state, min_indent) {
            Ok((progress, output, next)) => Ok((progress, Either::First(output), next)),
            Err((Progress::NoProgress, _)) => {
                match self.second.parse(arena, original_state, min_indent) {
                    Ok((progress, output, next)) => Ok((progress, Either::Second(output), next)),
                    Err((progress, fail)) => Err((progress, fail)),
                }
            },
            Err((Progress::MadeProgress, fail)) => Err((Progress::MadeProgress, fail)),
        }
    }
}

/// Runs `p1`; where it fails without progress, runs `p2` from the same state. The
/// output says which of the two succeeded.
pub fn either<'a, PA, PB, A, B, E>(p1: PA, p2: PB) -> (p: EitherOf<PA, PB>) where
    PA: Parser<'a, A, E>,
    PB: Parser<'a, B, E>,

    ensures
        p.first == p1,
        p.second == p2,
{
    EitherOf { first: p1, second: p2 }
}

/// A parser that may find nothing. See [`optional`].
pub struct Optional<P> {
    pub parser: P,
}

impl<'a, P, T, E> Parser<'a, Option<T>, E> for Optional<P> where P: Parser<'a, T, E> {
    open spec fn wf(&self, min_indent: u32) -> bool {
        self.parser.wf(min_indent)
    }

    open spec fn yields(
        &self,
        state: State<'a>,
        min_indent: u32,
        res: ParseResult<'a, Option<T>, E>,
    ) -> bool {
        exists|r1: ParseResult<'a, T, E>|
            #[trigger] self.parser.yields(state, min_indent, r1) && sound_step(state, r1)
                && match r1 {
                Ok((progress, out, next)) => succeeds_with(res, progress, Some(out), next),
                Err((Progress::MadeProgress, fail)) => fails_with(
                    res,
                    Progress::MadeProgress,
                    fail,
                ),
                Err((Progress::NoProgress, _)) => succeeds_with(
                    res,
                    Progress::NoProgress,
                    None,
                    state,
                ),
            }
    }

    fn parse(&self, arena: &'a Bump, state: State<'a>, min_indent: u32) -> (res: ParseResult<
        'a,
        Option<T>,
        E,
    >) {
        // Kept to go back to where the parser finds nothing.
        let original_state = state.clone();
        match self.parser.parse(arena, state, min_indent) {
            Ok((progress, out1, next)) => Ok((progress, Some(out1), next)),
            Err((Progress::MadeProgress, e)) => Err((Progress::MadeProgress, e)),
            Err((Progress::NoProgress, _)) => Ok((Progress::NoProgress, None, original_state)),
        }
    }
}

/// Runs `parser`. Where it fails without progress, the whole succeeds with `None`,
/// without progress, in the state it started from. A failure after progress stays a
/// failure.
pub fn optional<'a, P, T, E>(parser: P) -> (p: Optional<P>) where P: Parser<'a, T, E>
    ensures
        p.parser == parser,
{
    Optional { parser }
}

} // verus!
