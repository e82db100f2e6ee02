//! Parsers that change what another parser hands back: its output, its error, the
//! progress it reports, or the span it is given.
use vstd::prelude::*;
use bumpalo::Bump;
use core::marker::PhantomData;
use crate::apply::{total, Apply};
use crate::arena::alloc_in;
use crate::parser::{fails_with, sound_step, succeeds_with, ParseResult, Parser, Progress};
use crate::region::{Loc, Position, Region};
use crate::state::State;

verus! {

/// A parser with its output transformed. See [`map`].
pub struct Mapped<P, F, Before> {
    pub parser: P,
    pub transform: F,
    pub before: PhantomData<Before>,
}

impl<'a, P, F, Before, After, E> Parser<'a, After, E> for Mapped<P, F, Before> where
    P: Parser<'a, Before, E>,
    F: Apply<(Before,), Output = After>,
 {
    /// The function accepts every output of the parser.
    open spec fn wf(&self, min_indent: u32) -> bool {
        &&& self.parser.wf(min_indent)
        &&& forall|state: State<'a>, progress: Progress, out: Before, next: State<'a>|
            #[trigger] self.parser.yields(state, min_indent, Ok((progress, out, next)))
                ==> self.transform.defined_on((out,))
    }

    open spec fn yields(
        &self,
        state: State<'a>,
        min_indent: u32,
        res: ParseResult<'a, After, E>,
    ) -> bool {
        exists|r1: ParseResult<'a, Before, E>|
            #[trigger] self.parser.yields(state, min_indent, r1) && sound_step(state, r1)
                && match r1 {
                Ok((progress, out, next)) => exists|mapped: After|
                    #[trigger] self.transform.maps((out,), mapped) && succeeds_with(
                        res,
                        progress,
                        mapped,
                        next,
                    ),
                Err((progress, fail)) => fails_with(res, progress, fail),
            }
    }

    fn parse(&self, arena: &'a Bump, state: State<'a>, min_indent: u32) -> (res: ParseResult<
        'a,
        After,
        E,
    >) {
        match self.parser.parse(arena, state, min_indent) {
            Ok((progress, output, next_state)) => Ok(
                (progress, self.transform.apply((output,)), next_state),
            ),
            Err(fail) => Err(fail),
        }
    }
}

/// Runs `parser` and applies `transform` to its output. A failure passes through.
pub fn map<'a, P, F, Before, After, E>(parser: P, transform: F) -> (p: Mapped<P, F, Before>) where
    P: Parser<'a, Before, E>,
    F: Apply<(Before,), Output = After>,

    ensures
        p.parser == parser,
        p.transform == transform,
{
    Mapped { parser, transform, before: PhantomData }
}

/// A parser with its output transformed by a function that may allocate. See
/// [`map_with_arena`].
pub struct MappedWithArena<P, F, Before> {
    pub parser: P,
    pub transform: F,
    pub before: PhantomData<Before>,
}

impl<'a, P, F, Before, After, E> Parser<'a, After, E> for MappedWithArena<P, F, Before> where
    P: Parser<'a, Before, E>,
    F: Apply<(&'a Bump, Before), Output = After>,
 {
    /// The function accepts every output of the parser, in every arena.
    open spec fn wf(&self, min_indent: u32) -> bool {
        &&& self.parser.wf(min_indent)
        &&& forall|
            arena: &'a Bump,
            state: State<'a>,
            progress: Progress,
            out: Before,
            next: State<'a>,
        |
            #[trigger] self.parser.yields(state, min_indent, Ok((progress, out, next)))
                ==> #[trigger] self.transform.defined_on((arena, out))
    }

    open spec fn yields(
        &self,
        state: State<'a>,
        min_indent: u32,
        res: ParseResult<'a, After, E>,
    ) -> bool {
        exists|r1: ParseResult<'a, Before, E>|
            #[trigger] self.parser.yields(state, min_indent, r1) && sound_step(state, r1)
                && match r1 {
                Ok((progress, out, next)) => exists|arena: &'a Bump, mapped: After|
                    #[trigger] self.transform.maps((arena, out), mapped) && succeeds_with(
                        res,
                        progress,
                        mapped,
                        next,
                    ),
                Err((progress, fail)) => fails_with(res, progress, fail),
            }
    }

    fn parse(&self, arena: &'a Bump, state: State<'a>, min_indent: u32) -> (res: ParseResult<
        'a,
        After,
        E,
    >) {
        match self.parser.parse(arena, state, min_indent) {
            Ok((progress, output, next_state)) => Ok(
                (progress, self.transform.apply((arena, output)), next_state),
            ),
            Err(fail) => Err(fail),
        }
    }
}

/// Runs `parser` and applies `transform` to the arena and the output: for a
/// transform that builds its result in the arena. A failure passes through.
pub fn map_with_arena<'a, P, F, Before, After, E>(parser: P, transform: F) -> (p: MappedWithArena<
    P,
    F,
    Before,
>) where P: Parser<'a, Before, E>, F: Apply<(&'a Bump, Before), Output = After>
    ensures
        p.parser == parser,
        p.transform == transform,
{
    MappedWithArena { parser, transform, before: PhantomData }
}

/// A parser with its error turned into that of an enclosing rule. See
/// [`specialize_err`].
pub struct SpecializeErr<F, P, X> {
    pub map_error: F,
    pub parser: P,
    pub inner_error: PhantomData<X>,
}

impl<'a, F, P, T, X, Y> Parser<'a, T, Y> for SpecializeErr<F, P, X> where
    F: Apply<(X, Position), Output = Y>,
    P: Parser<'a, T, X>,
 {
    /// The function accepts every error of the parser, at every position.
    open spec fn wf(&self, min_indent: u32) -> bool {
        &&& self.parser.wf(min_indent)
        &&& forall|state: State<'a>, progress: Progress, fail: X, pos: Position|
            #[trigger] self.parser.yields(state, min_indent, Err((progress, fail)))
                ==> #[trigger] self.map_error.defined_on((fail, pos))
    }

    open spec fn yields(&self, state: State<'a>, min_indent: u32, res: ParseResult<'a, T, Y>) -> bool {
        exists|r1: ParseResult<'a, T, X>|
            #[trigger] self.parser.yields(state, min_indent, r1) && sound_step(state, r1)
                && match r1 {
                Ok((progress, out, next)) => succeeds_with(res, progress, out, next),
                Err((progress, fail)) => exists|mapped: Y|
                    #[trigger] self.map_error.maps((fail, state.pos_spec()), mapped)
                        && fails_with(res, progress, mapped),
            }
    }

    fn parse(&self, arena: &'a Bump, state: State<'a>, min_indent: u32) -> (res: ParseResult<
        'a,
        T,
        Y,
    >) {
        let original_state = state.clone();
        match self.parser.parse(arena, state, min_indent) {
            Ok(t) => Ok(t),
            Err((p, error)) => Err((p, self.map_error.apply((error, original_state.pos())))),
        }
    }
}

/// Runs `parser`; where it fails, hands its error and the position where the attempt
/// began to `map_error`, whose result is the error of the whole. The position is
/// that of the start, not the one where `parser` gave up. A success passes through.
pub fn specialize_err<'a, F, P, T, X, Y>(map_error: F, parser: P) -> (p: SpecializeErr<
    F,
    P,
    X,
>) where F: Apply<(X, Position), Output = Y>, P: Parser<'a, T, X>
    ensures
        p.map_error == map_error,
        p.parser == parser,
{
    SpecializeErr { map_error, parser, inner_error: PhantomData }
}

/// A parser with its error kept in the arena and turned into that of an enclosing
/// rule. See [`specialize_err_ref`].
pub struct SpecializeErrRef<F, P, X> {
    pub map_error: F,
    pub parser: P,
    pub inner_error: PhantomData<X>,
}

impl<'a, F, P, T, X, Y> Parser<'a, T, Y> for SpecializeErrRef<F, P, X> where
    F: Apply<(&'a X, Position), Output = Y>,
    P: Parser<'a, T, X>,
    X: 'a,
 {
    /// The function accepts every error of the parser, at every position.
    open spec fn wf(&self, min_indent: u32) -> bool {
        &&& self.parser.wf(min_indent)
        &&& forall|state: State<'a>, progress: Progress, fail: X, pos: Position|
            #[trigger] self.parser.yields(state, min_indent, Err((progress, fail)))
                ==> #[trigger] self.map_error.defined_on((&fail, pos))
    }

    open spec fn yields(&self, state: State<'a>, min_indent: u32, res: ParseResult<'a, T, Y>) -> bool {
        exists|r1: ParseResult<'a, T, X>|
            #[trigger] self.parser.yields(state, min_indent, r1) && sound_step(state, r1)
                && match r1 {
                Ok((progress, out, next)) => succeeds_with(res, progress, out, next),
                Err((progress, fail)) => exists|mapped: Y|
                    #[trigger] self.map_error.maps((&fail, state.pos_spec()), mapped)
                        && fails_with(res, progress, mapped),
            }
    }

    fn parse(&self, arena: &'a Bump, state: State<'a>, min_indent: u32) -> (res: ParseResult<
        'a,
        T,
        Y,
    >) {
        let original_state = state.clone();
        match self.parser.parse(arena, state, min_indent) {
            Ok(t) => Ok(t),
            Err((p, error)) => {
                let kept = alloc_in(arena, error);
                Err((p, self.map_error.apply((kept, original_state.pos()))))
            },
        }
    }
}

/// As [`specialize_err`], for an error that the enclosing error refers to: the error
/// of `parser` is moved into the arena, and `map_error` gets a reference to it.
pub fn specialize_err_ref<'a, F, P, T, X, Y>(map_error: F, parser: P) -> (p: SpecializeErrRef<
    F,
    P,
    X,
>) where F: Apply<(&'a X, Position), Output = Y>, P: Parser<'a, T, X>, X: 'a
    ensures
        p.map_error == map_error,
        p.parser == parser,
{
    SpecializeErrRef { map_error, parser, inner_error: PhantomData }
}

/// A parser with its output moved into the arena. See [`allocated`].
pub struct Allocated<P> {
    pub parser: P,
}

impl<'a, P, Val, E> Parser<'a, &'a Val, E> for Allocated<P> where P: Parser<'a, Val, E>, Val: 'a {
    open spec fn wf(&self, min_indent: u32) -> bool {
        self.parser.wf(min_indent)
    }

    open spec fn yields(
        &self,
        state: State<'a>,
        min_indent: u32,
        res: ParseResult<'a, &'a Val, E>,
    ) -> bool {
        exists|r1: ParseResult<'a, Val, E>|
            #[trigger] self.parser.yields(state, min_indent, r1) && sound_step(state, r1)
                && match r1 {
                Ok((progress, out, next)) => succeeds_with(res, progress, &out, next),
                Err((progress, fail)) => fails_with(res, progress, fail),
            }
    }

    fn parse(&self, arena: &'a Bump, state: State<'a>, min_indent: u32) -> (res: ParseResult<
        'a,
        &'a Val,
        E,
    >) {
        match self.parser.parse(arena, state, min_indent) {
            Ok((progress, answer, next)) => Ok((progress, alloc_in(arena, answer), next)),
            Err(fail) => Err(fail),
        }
    }
}

/// Runs `parser` and moves its output into the arena: the output of the whole is a
/// reference to it. A failure passes through.
pub fn allocated<'a, P, Val, E>(parser: P) -> (p: Allocated<P>) where
    P: Parser<'a, Val, E>,
    Val: 'a,

    ensures
        p.parser == parser,
{
    Allocated { parser }
}

/// A parser that never reports progress and fails without saying why. See
/// [`backtrackable`].
pub struct Backtrackable<P, E> {
    pub parser: P,
    pub dropped: PhantomData<E>,
}

impl<'a, P, Val, E> Parser<'a, Val, ()> for Backtrackable<P, E> where P: Parser<'a, Val, E> {
    open spec fn wf(&self, min_indent: u32) -> bool {
        self.parser.wf(min_indent)
    }

    open spec fn yields(
        &self,
        state: State<'a>,
        min_indent: u32,
        res: ParseResult<'a, Val, ()>,
    ) -> bool {
        exists|r1: ParseResult<'a, Val, E>|
            #[trigger] self.parser.yields(state, min_indent, r1) && sound_step(state, r1)
                && match r1 {
                Ok((_, out, next)) => succeeds_with(res, Progress::NoProgress, out, next),
                Err(_) => fails_with(res, Progress::NoProgress, ()),
            }
    }

    fn parse(&self, arena: &'a Bump, state: State<'a>, min_indent: u32) -> (res: ParseResult<
        'a,
        Val,
        (),
    >) {
        match self.parser.parse(arena, state, min_indent) {
            Ok((_, a, s1)) => Ok((Progress::NoProgress, a, s1)),
            Err(_) => Err((Progress::NoProgress, ())),
        }
    }
}

/// Runs `parser` and reports no progress, whatever it consumed, on success and on
/// failure alike: an enclosing choice goes on to its next alternative where `parser`
/// fails, however far it had come. A failure carries nothing of the error of
/// `parser`: the attempt was a probe, and what it tripped over is of no account.
pub fn backtrackable<'a, P, Val, E>(parser: P) -> (p: Backtrackable<P, E>) where
    P: Parser<'a, Val, E>,

    ensures
        p.parser == parser,
{
    Backtrackable { parser, dropped: PhantomData }
}

/// A parser with the span of what it consumed. See [`loc`].
pub struct Located<P> {
    pub parser: P,
}

impl<'a, P, Val, E> Parser<'a, Loc<Val>, E> for Located<P> where P: Parser<'a, Val, E> {
    open spec fn wf(&self, min_indent: u32) -> bool {
        self.parser.wf(min_indent)
    }

    open spec fn yields(
        &self,
        state: State<'a>,
        min_indent: u32,
        res: ParseResult<'a, Loc<Val>, E>,
    ) -> bool {
        exists|r1: ParseResult<'a, Val, E>|
            #[trigger] self.parser.yields(state, min_indent, r1) && sound_step(state, r1)
                && match r1 {
                Ok((progress, value, next)) => succeeds_with(
                    res,
                    progress,
                    Loc { region: Region { start: state.pos_spec(), end: next.pos_spec() }, value },
                    next,
                ),
                Err((progress, fail)) => fails_with(res, progress, fail),
            }
    }

    fn parse(&self, arena: &'a Bump, state: State<'a>, min_indent: u32) -> (res: ParseResult<
        'a,
        Loc<Val>,
        E,
    >) {
        let start = state.pos();
        match self.parser.parse(arena, state, min_indent) {
            Ok((progress, value, next)) => {
                let end = next.pos();
                let region = Region::new(start, end);
                Ok((progress, Loc { region, value }, next))
            },
            Err(err) => Err(err),
        }
    }
}

/// Runs `parser` and wraps its output in the region from the position where it
/// started to the position where it stopped. Progress and failure are those of
/// `parser`.
pub fn loc<'a, P, Val, E>(parser: P) -> (p: Located<P>) where P: Parser<'a, Val, E>
    ensures
        p.parser == parser,
{
    Located { parser }
}

/// A parser that always succeeds. See [`succeed`].
pub struct Succeed<T> {
    pub value: T,
}

impl<'a, T: Clone, E> Parser<'a, T, E> for Succeed<T> {
    open spec fn wf(&self, min_indent: u32) -> bool {
        true
    }

    open spec fn yields(&self, state: State<'a>, min_indent: u32, res: ParseResult<'a, T, E>) -> bool {
        &&& res matches Ok((progress, out, next))
        &&& progress == Progress::NoProgress
        &&& cloned(self.value, out)
        &&& next == state
    }

    fn parse(&self, arena: &'a Bump, state: State<'a>, min_indent: u32) -> (res: ParseResult<
        'a,
        T,
        E,
    >) {
        Ok((Progress::NoProgress, self.value.clone(), state))
    }
}

/// Succeeds with a clone of `value`, without progress, in the state it starts from.
pub fn succeed<T: Clone>(value: T) -> (p: Succeed<T>)
    ensures
        p.value == value,
{
    Succeed { value }
}

/// A parser that fails where another succeeds. See [`fail_when`].
pub struct FailWhen<F, P, T2> {
    pub to_error: F,
    pub parser: P,
    pub found: PhantomData<T2>,
}

impl<'a, T, T2, E, F, P> Parser<'a, T, E> for FailWhen<F, P, T2> where
    F: Apply<(Position,), Output = E>,
    P: Parser<'a, T2, E>,
 {
    open spec fn wf(&self, min_indent: u32) -> bool {
        &&& self.parser.wf(min_indent)
        &&& total(self.to_error)
    }

    open spec fn yields(&self, state: State<'a>, min_indent: u32, res: ParseResult<'a, T, E>) -> bool {
        exists|r1: ParseResult<'a, T2, E>|
            #[trigger] self.parser.yields(state, min_indent, r1) && sound_step(state, r1)
                && match r1 {
                Ok(_) => exists|e: E|
                    #[trigger] self.to_error.maps((state.pos_spec(),), e) && fails_with(
                        res,
                        Progress::MadeProgress,
                        e,
                    ),
                Err((progress, fail)) => fails_with(res, progress, fail),
            }
    }

    fn parse(&self, arena: &'a Bump, state: State<'a>, min_indent: u32) -> (res: ParseResult<
        'a,
        T,
        E,
    >) {
        let original_state = state.clone();
        match self.parser.parse(arena, state, min_indent) {
            Ok(_) => Err((Progress::MadeProgress, self.to_error.apply((original_state.pos(),)))),
            Err((progress, err)) => Err((progress, err)),
        }
    }
}

/// Always fails. Where `p` fails, with the failure of `p`; where `p` succeeds, with
/// progress and the error that `f` makes of the position where the attempt began.
pub fn fail_when<'a, T2, E, F, P>(f: F, p: P) -> (r: FailWhen<F, P, T2>) where
    F: Apply<(Position,), Output = E>,
    P: Parser<'a, T2, E>,

    ensures
        r.to_error == f,
        r.parser == p,
{
    FailWhen { to_error: f, parser: p, found: PhantomData }
}

/// A parser that always fails. See [`fail`].
pub struct Fail<F> {
    pub to_error: F,
}

impl<'a, T, E, F> Parser<'a, T, E> for Fail<F> where F: Apply<(Position,), Output = E> {
    open spec fn wf(&self, min_indent: u32) -> bool {
        total(self.to_error)
    }

    open spec fn yields(&self, state: State<'a>, min_indent: u32, res: ParseResult<'a, T, E>) -> bool {
        exists|e: E|
            #[trigger] self.to_error.maps((state.pos_spec(),), e) && fails_with(
                res,
                Progress::NoProgress,
                e,
            )
    }

    fn parse(&self, arena: &'a Bump, state: State<'a>, min_indent: u32) -> (res: ParseResult<
        'a,
        T,
        E,
    >) {
        Err((Progress::NoProgress, self.to_error.apply((state.pos(),))))
    }
}

/// Always fails, without progress, with the error that `f` makes of the cursor's
/// position.
pub fn fail<E, F>(f: F) -> (p: Fail<F>) where F: Apply<(Position,), Output = E>
    ensures
        p.to_error == f,
{
    Fail { to_error: f }
}

} // verus!
