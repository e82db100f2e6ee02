//! Running one parser after another.
//!
//! The second parser starts where the first one stopped. The sequence has made
//! progress as soon as one of the two has: a failure of the second parser after the
//! first one consumed input is reported with progress, so that an enclosing choice
//! does not go on to another alternative.
use vstd::prelude::*;
use bumpalo::Bump;
use core::marker::PhantomData;
use crate::apply::Apply;
use crate::parser::{fails_with, sound_step, succeeds_with, ParseResult, Parser, Progress};
use crate::state::State;

verus! {

/// `res` is an outcome of `first` under `indent_1` followed by `second` under
/// `indent_2`: a failure of `first` as it is; a failure of `second` with the progress
/// of both; else both outputs, the progress of both, and the state after `second`.
pub open spec fn in_sequence<'a, A, B, E, PA: Parser<'a, A, E>, PB: Parser<'a, B, E>>(
    first: PA,
    second: PB,
    state: State<'a>,
    indent_1: u32,
    indent_2: u32,
    res: ParseResult<'a, (A, B), E>,
) -> bool {
    exists|r1: ParseResult<'a, A, E>|
        #[trigger] first.yields(state, indent_1, r1) && sound_step(state, r1) && match r1 {
            Ok((p1, out1, mid)) => exists|r2: ParseResult<'a, B, E>|
                #[trigger] second.yields(mid, indent_2, r2) && sound_step(mid, r2) && match r2 {
                    Ok((p2, out2, next)) => succeeds_with(
                        res,
                        p1.or_spec(p2),
                        (out1, out2),
                        next,
                    ),
                    Err((p2, fail)) => fails_with(res, p1.or_spec(p2), fail),
                },
            Err((p1, fail)) => fails_with(res, p1, fail),
        }
}

/// The outcome `res` of a sequence without the first output.
pub open spec fn second_of<'a, A, B, E>(res: ParseResult<'a, (A, B), E>) -> ParseResult<'a, B, E> {
    match res {
        Ok((progress, (_, out2), next)) => Ok((progress, out2, next)),
        Err(fail) => Err(fail),
    }
}

/// The outcome `res` of a sequence without the second output.
pub open spec fn first_of<'a, A, B, E>(res: ParseResult<'a, (A, B), E>) -> ParseResult<'a, A, E> {
    match res {
        Ok((progress, (out1, _), next)) => Ok((progress, out1, next)),
        Err(fail) => Err(fail),
    }
}

/// Two parsers in a row, with both outputs. See [`and`].
pub struct And<PA, PB> {
    pub first: PA,
    pub second: PB,
}

impl<'a, PA, PB, A, B, E> Parser<'a, (A, B), E> for And<PA, PB> where
    PA: Parser<'a, A, E>,
    PB: Parser<'a, B, E>,
 {
    open spec fn wf(&self, min_indent: u32) -> bool {
        self.first.wf(min_indent) && self.second.wf(min_indent)
    }

    open spec fn yields(
        &self,
        state: State<'a>,
        min_indent: u32,
        res: ParseResult<'a, (A, B), E>,
    ) -> bool {
        in_sequence(self.first, self.second, state, min_indent, min_indent, res)
    }

    fn parse(&self, arena: &'a Bump, state: State<'a>, min_indent: u32) -> (res: ParseResult<
        'a,
        (A, B),
        E,
    >) {
        match self.first.parse(arena, state, min_indent) {
            Ok((p1, out1, mid)) => match self.second.parse(arena, mid, min_indent) {
                Ok((p2, out2, next)) => Ok((p1.or(p2), (out1, out2), next)),
                Err((p2, fail)) => Err((p1.or(p2), fail)),
            },
            Err((progress, fail)) => Err((progress, fail)),
        }
    }
}

/// Runs `p1`, then `p2` where `p1` stopped. Where both succeed, the output is the pair
/// of their outputs.
pub fn and<'a, PA, PB, A, B, E>(p1: PA, p2: PB) -> (p: And<PA, PB>) where
    PA: Parser<'a, A, E>,
    PB: Parser<'a, B, E>,

    ensures
        p.first == p1,
        p.second == p2,
{
    And { first: p1, second: p2 }
}

/// Two parsers in a row, with the output of the second. See [`skip_first`].
pub struct SkipFirst<PA, PB, A> {
    pub first: PA,
    pub second: PB,
    pub skipped: PhantomData<A>,
}

impl<'a, PA, PB, A, B, E> Parser<'a, B, E> for SkipFirst<PA, PB, A> where
    PA: Parser<'a, A, E>,
    PB: Parser<'a, B, E>,
 {
    open spec fn wf(&self, min_indent: u32) -> bool {
        self.first.wf(min_indent) && self.second.wf(min_indent)
    }

    open spec fn yields(&self, state: State<'a>, min_indent: u32, res: ParseResult<'a, B, E>) -> bool {
        exists|both: ParseResult<'a, (A, B), E>| #[trigger]
            in_sequence(self.first, self.second, state, min_indent, min_indent, both) && res
                == second_of(both)
    }

    fn parse(&self, arena: &'a Bump, state: State<'a>, min_indent: u32) -> (res: ParseResult<
        'a,
        B,
        E,
    >) {
        match self.first.parse(arena, state, min_indent) {
            Ok((p1, out1, mid)) => match self.second.parse(arena, mid, min_indent) {
                Ok((p2, out2, next)) => {
                    let progress = p1.or(p2);
                    assert(in_sequence(
                        self.first,
                        self.second,
                        state,
                        min_indent,
                        min_indent,
                        Ok::<_, (Progress, E)>((progress, (out1, out2), next)),
                    ));
                    Ok((progress, out2, next))
                },
                Err((p2, fail)) => {
                    let progress = p1.or(p2);
                    assert(in_sequence(
                        self.first,
                        self.second,
                        state,
                        min_indent,
                        min_indent,
                        Err::<(Progress, (A, B), State<'a>), _>((progress, fail)),
                    ));
                    Err((progress, fail))
                },
            },
            Err((progress, fail)) => {
                assert(in_sequence(
                    self.first,
                    self.second,
                    state,
                    min_indent,
                    min_indent,
                    Err::<(Progress, (A, B), State<'a>), _>((progress, fail)),
                ));
                Err((progress, fail))
            },
        }
    }
}

/// Runs `p1`, then `p2` where `p1` stopped, and keeps the output of `p2` alone.
pub fn skip_first<'a, PA, PB, A, B, E>(p1: PA, p2: PB) -> (p: SkipFirst<PA, PB, A>) where
    PA: Parser<'a, A, E>,
    PB: Parser<'a, B, E>,

    ensures
        p.first == p1,
        p.second == p2,
{
    SkipFirst { first: p1, second: p2, skipped: PhantomData }
}

/// Two parsers in a row, with the output of the first. See [`skip_second`].
pub struct SkipSecond<PA, PB, B> {
    pub first: PA,
    pub second: PB,
    pub skipped: PhantomData<B>,
}

impl<'a, PA, PB, A, B, E> Parser<'a, A, E> for SkipSecond<PA, PB, B> where
    PA: Parser<'a, A, E>,
    PB: Parser<'a, B, E>,
 {
    open spec fn wf(&self, min_indent: u32) -> bool {
        self.first.wf(min_indent) && self.second.wf(min_indent)
    }

    open spec fn yields(&self, state: State<'a>, min_indent: u32, res: ParseResult<'a, A, E>) -> bool {
        exists|both: ParseResult<'a, (A, B), E>| #[trigger]
            in_sequence(self.first, self.second, state, min_indent, min_indent, both) && res
                == first_of(both)
    }

    fn parse(&self, arena: &'a Bump, state: State<'a>, min_indent: u32) -> (res: ParseResult<
        'a,
        A,
        E,
    >) {
        match self.first.parse(arena, state, min_indent) {
            Ok((p1, out1, mid)) => match self.second.parse(arena, mid, min_indent) {
                Ok((p2, out2, next)) => {
                    let progress = p1.or(p2);
                    assert(in_sequence(
                        self.first,
                        self.second,
                        state,
                        min_indent,
                        min_indent,
                        Ok::<_, (Progress, E)>((progress, (out1, out2), next)),
                    ));
                    Ok((progress, out1, next))
                },
                Err((p2, fail)) => {
                    let progress = p1.or(p2);
                    assert(in_sequence(
                        self.first,
                        self.second,
                        state,
                        min_indent,
                        min_indent,
                        Err::<(Progress, (A, B), State<'a>), _>((progress, fail)),
                    ));
                    Err((progress, fail))
                },
            },
            Err((progress, fail)) => {
                assert(in_sequence(
                    self.first,
                    self.second,
                    state,
                    min_indent,
                    min_indent,
                    Err::<(Progress, (A, B), State<'a>), _>((progress, fail)),
                ));
                Err((progress, fail))
            },
        }
    }
}

/// Runs `p1`, then `p2` where `p1` stopped, and keeps the output of `p1` alone.
pub fn skip_second<'a, PA, PB, A, B, E>(p1: PA, p2: PB) -> (p: SkipSecond<PA, PB, B>) where
    PA: Parser<'a, A, E>,
    PB: Parser<'a, B, E>,

    ensures
        p.first == p1,
        p.second == p2,
{
    SkipSecond { first: p1, second: p2, skipped: PhantomData }
}

/// Runs the three parsers in a row and keeps the output of the middle one: what stands
/// between an opening and a closing token.
pub fn between<'a, PA, PB, PC, A, B, C, E>(opening_brace: PA, parser: PB, closing_brace: PC) -> (p:
    SkipFirst<PA, SkipSecond<PB, PC, C>, A>) where
    PA: Parser<'a, A, E>,
    PB: Parser<'a, B, E>,
    PC: Parser<'a, C, E>,

    ensures
        p.first == opening_brace,
        p.second.first == parser,
        p.second.second == closing_brace,
{
    skip_first(opening_brace, skip_second(parser, closing_brace))
}

/// A parser followed by the parser that a function makes of its output. See
/// [`and_then`].
pub struct AndThen<PA, F, Before> {
    pub parser: PA,
    pub transform: F,
    pub before: PhantomData<Before>,
}

impl<'a, PA, PB, F, Before, After, E> Parser<'a, After, E> for AndThen<PA, F, Before> where
    PA: Parser<'a, Before, E>,
    PB: Parser<'a, After, E>,
    F: Apply<(Progress, Before), Output = PB>,
 {
    /// The function accepts every success of the first parser, and every parser it
    /// makes can be run.
    open spec fn wf(&self, min_indent: u32) -> bool {
        &&& self.parser.wf(min_indent)
        &&& forall|state: State<'a>, progress: Progress, out: Before, mid: State<'a>|
            #[trigger] self.parser.yields(state, min_indent, Ok((progress, out, mid)))
                ==> self.transform.defined_on((progress, out))
        &&& forall|progress: Progress, out: Before, second: PB| #[trigger]
            self.transform.maps((progress, out), second) ==> second.wf(min_indent)
    }

    open spec fn yields(
        &self,
        state: State<'a>,
        min_indent: u32,
        res: ParseResult<'a, After, E>,
    ) -> bool {
        exists|r1: ParseResult<'a, Before, E>|
            #[trigger] self.parser.yields(state, min_indent, r1) && sound_step(state, r1)
                && match r1 {
                Ok((progress, out, mid)) => exists|second: PB|
                    {
                        &&& #[trigger] self.transform.maps((progress, out), second)
                        &&& second.yields(mid, min_indent, res)
                        &&& sound_step(mid, res)
                    },
                Err((progress, fail)) => fails_with(res, progress, fail),
            }
    }

    fn parse(&self, arena: &'a Bump, state: State<'a>, min_indent: u32) -> (res: ParseResult<
        'a,
        After,
        E,
    >) {
        match self.parser.parse(arena, state, min_indent) {
            Ok((progress, output, next_state)) => {
                let second = self.transform.apply((progress, output));
                second.parse(arena, next_state, min_indent)
            },
            Err(fail) => Err(fail),
        }
    }
}

/// Runs `parser`, hands its progress and output to `transform`, and runs the parser
/// that `transform` returns where `parser` stopped. The outcome is that of the second
/// parser as it stands: its progress does not count what `parser` consumed.
pub fn and_then<'a, PA, PB, F, Before, After, E>(parser: PA, transform: F) -> (p: AndThen<
    PA,
    F,
    Before,
>) where PA: Parser<'a, Before, E>, PB: Parser<'a, After, E>, F: Apply<(Progress, Before), Output = PB>
    ensures
        p.parser == parser,
        p.transform == transform,
{
    AndThen { parser, transform, before: PhantomData }
}

/// A parser followed by a function that decides the outcome. See [`then_with`].
pub struct ThenWith<PA, F, Before> {
    pub parser: PA,
    pub transform: F,
    pub before: PhantomData<Before>,
}

impl<'a, PA, F, Before, After, E> Parser<'a, After, E> for ThenWith<PA, F, Before> where
    PA: Parser<'a, Before, E>,
    F: Apply<(&'a Bump, State<'a>, Progress, Before), Output = ParseResult<'a, After, E>>,
 {
    /// The function accepts every success of the parser, and where it succeeds it
    /// hands back a state that continues the one it was given.
    open spec fn wf(&self, min_indent: u32) -> bool {
        &&& self.parser.wf(min_indent)
        &&& forall|
            arena: &'a Bump,
            state: State<'a>,
            progress: Progress,
            out: Before,
            mid: State<'a>,
        |
            #[trigger] self.parser.yields(state, min_indent, Ok((progress, out, mid)))
                ==> #[trigger] self.transform.defined_on((arena, mid, progress, out))
        &&& forall|
            arena: &'a Bump,
            mid: State<'a>,
            progress: Progress,
            out: Before,
            res: ParseResult<'a, After, E>,
        | #[trigger]
            self.transform.maps((arena, mid, progress, out), res) && mid.wf() ==> sound_step(
                mid,
                res,
            )
    }

    open spec fn yields(
        &self,
        state: State<'a>,
        min_indent: u32,
        res: ParseResult<'a, After, E>,
    ) -> bool {
        exists|r1: ParseResult<'a, Before, E>|
            #[trigger] self.parser.yields(state, min_indent, r1) && sound_step(state, r1)
                && match r1 {
                Ok((progress, out, mid)) => exists|arena: &'a Bump| #[trigger]
                    self.transform.maps((arena, mid, progress, out), res),
                Err((progress, fail)) => fails_with(res, progress, fail),
            }
    }

    fn parse(&self, arena: &'a Bump, state: State<'a>, min_indent: u32) -> (res: ParseResult<
        'a,
        After,
        E,
    >) {
        match self.parser.parse(arena, state, min_indent) {
            Ok((progress, output, next_state)) => self.transform.apply((arena,
                next_state,
                progress,
                output)),
            Err(fail) => Err(fail),
        }
    }
}

/// Runs `parser` and hands the arena, the state it stopped in, its progress and its
/// output to `transform`, whose outcome is the outcome of the whole.
pub fn then_with<'a, PA, F, Before, After, E>(parser: PA, transform: F) -> (p: ThenWith<
    PA,
    F,
    Before,
>) where
    PA: Parser<'a, Before, E>,
    F: Apply<(&'a Bump, State<'a>, Progress, Before), Output = ParseResult<'a, After, E>>,

    ensures
        p.parser == parser,
        p.transform == transform,
{
    ThenWith { parser, transform, before: PhantomData }
}

} // verus!
