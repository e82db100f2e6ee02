//! Applying one parser as often as it succeeds.
//!
//! The repetition ends where an attempt fails without progress; the state before that
//! attempt is the state after the repetition. An attempt that fails after progress is
//! an element that began and broke off: the repetition fails with its failure.
//!
//! A repetition comes to an end only if every element consumes input. That is asked of
//! the element parser before the repetition is run.
//!
//! The outputs are handed out in a `Vec` of the standard library, a collection whose
//! contents a contract can speak of. It is the caller's to keep, to change, or to move
//! into the arena.
use vstd::prelude::*;
use bumpalo::Bump;
use crate::apply::{total, Apply};
use crate::parser::{
    consumes_on_success,
    fails_with,
    sound_step,
    ParseResult,
    Parser,
    Progress,
};
use crate::region::Position;
use crate::state::State;

verus! {

/// `res` is an outcome of applying `parser` again and again from `cur` on, where the
/// repetition began at `start` and has collected `acc` so far.
///
/// Each success adds its output to what was collected and goes on where it stopped.
/// The first failure ends the repetition: after progress, as the failure of the
/// whole; without progress, as its success, with what was collected, in the state
/// before the failed attempt, and with progress if any byte was consumed since
/// `start`.
pub open spec fn repeats<'a, T, E, P: Parser<'a, T, E>>(
    parser: P,
    start: State<'a>,
    cur: State<'a>,
    min_indent: u32,
    acc: Seq<T>,
    res: ParseResult<'a, Vec<T>, E>,
) -> bool
    decreases cur.original_bytes@.len() - cur.offset,
{
    exists|r: ParseResult<'a, T, E>|
        #[trigger] parser.yields(cur, min_indent, r) && sound_step(cur, r) && match r {
            Ok((_, out, next)) => cur.offset < next.offset && repeats(
                parser,
                start,
                next,
                min_indent,
                acc.push(out),
                res,
            ),
            Err((Progress::MadeProgress, fail)) => fails_with(res, Progress::MadeProgress, fail),
            Err((Progress::NoProgress, _)) => {
                &&& res matches Ok((progress, items, end))
                &&& progress == Progress::when(start.offset != cur.offset)
                &&& items@ == acc
                &&& end == cur
            },
        }
}

/// Applies `parser` again and again from `cur` on, where the repetition began at
/// `start` and has collected `collected` so far.
fn repeat_from<'a, P, T, E>(
    parser: &P,
    arena: &'a Bump,
    start: &State<'a>,
    cur: State<'a>,
    collected: Vec<T>,
    min_indent: u32,
) -> (res: ParseResult<'a, Vec<T>, E>) where P: Parser<'a, T, E>
    requires
        parser.wf(min_indent),
        consumes_on_success(*parser, min_indent),
        start.wf(),
        cur.continues(*start),
    ensures
        repeats(*parser, *start, cur, min_indent, collected@, res),
        sound_step(cur, res),
{
    let start_bytes_len = start.bytes().len();
    let mut state = cur.clone();
    let mut buf = collected;
    loop
        invariant
            parser.wf(min_indent),
            consumes_on_success(*parser, min_indent),
            start.wf(),
            cur.continues(*start),
            state.continues(cur),
            start_bytes_len == start.remaining().len(),
            forall|res: ParseResult<'a, Vec<T>, E>| #[trigger]
                repeats(*parser, *start, state, min_indent, buf@, res) ==> repeats(
                    *parser,
                    *start,
                    cur,
                    min_indent,
                    collected@,
                    res,
                ),
        decreases state.original_bytes@.len() - state.offset,
    {
        let old_state = state.clone();
        match parser.parse(arena, state, min_indent) {
            Ok((_, next_output, next_state)) => {
                assert forall|res: ParseResult<'a, Vec<T>, E>| #[trigger]
                    repeats(
                        *parser,
                        *start,
                        next_state,
                        min_indent,
                        buf@.push(next_output),
                        res,
                    ) implies repeats(*parser, *start, old_state, min_indent, buf@, res) by {}
                state = next_state;
                buf.push(next_output);
            },
            Err((Progress::MadeProgress, fail)) => {
                // An element began and broke off.
                let res = Err((Progress::MadeProgress, fail));
                assert(repeats(*parser, *start, old_state, min_indent, buf@, res));
                return res;
            },
            Err((Progress::NoProgress, _)) => {
                // No further element: say whether any input was consumed before.
                let progress = Progress::from_lengths(start_bytes_len, old_state.bytes().len());
                let ghost items = buf@;
                let res = Ok((progress, buf, old_state));
                assert(repeats(*parser, *start, old_state, min_indent, items, res));
                return res;
            },
        }
    }
}

/// A parser applied as often as it succeeds. See [`zero_or_more`].
pub struct ZeroOrMore<P> {
    pub parser: P,
}

impl<'a, P, T, E> Parser<'a, Vec<T>, E> for ZeroOrMore<P> where P: Parser<'a, T, E> {
    /// The element parser can be run, and each of its successes consumes input.
    open spec fn wf(&self, min_indent: u32) -> bool {
        self.parser.wf(min_indent) && consumes_on_success(self.parser, min_indent)
    }

    open spec fn yields(
        &self,
        state: State<'a>,
        min_indent: u32,
        res: ParseResult<'a, Vec<T>, E>,
    ) -> bool {
        repeats(self.parser, state, state, min_indent, Seq::empty(), res)
    }

    fn parse(&self, arena: &'a Bump, state: State<'a>, min_indent: u32) -> (res: ParseResult<
        'a,
        Vec<T>,
        E,
    >) {
        let start = state.clone();
        repeat_from(&self.parser, arena, &start, state, Vec::new(), min_indent)
    }
}

/// Applies `parser` as often as it succeeds, and collects the outputs. It fails only
/// where an application fails after progress. Where the first application fails
/// without progress, it succeeds with no output, without progress, in the state it
/// started from.
pub fn zero_or_more<'a, P, T, E>(parser: P) -> (p: ZeroOrMore<P>) where P: Parser<'a, T, E>
    ensures
        p.parser == parser,
{
    ZeroOrMore { parser }
}

/// A parser applied as often as it succeeds, and at least once. See [`one_or_more`].
pub struct OneOrMore<P, F> {
    pub parser: P,
    pub to_error: F,
}

impl<'a, P, F, T, E> Parser<'a, Vec<T>, E> for OneOrMore<P, F> where
    P: Parser<'a, T, E>,
    F: Apply<(Position,), Output = E>,
 {
    /// The element parser can be run, each of its successes consumes input, and the
    /// error function accepts every position.
    open spec fn wf(&self, min_indent: u32) -> bool {
        &&& self.parser.wf(min_indent)
        &&& consumes_on_success(self.parser, min_indent)
        &&& total(self.to_error)
    }

    open spec fn yields(
        &self,
        state: State<'a>,
        min_indent: u32,
        res: ParseResult<'a, Vec<T>, E>,
    ) -> bool {
        exists|r1: ParseResult<'a, T, E>|
            #[trigger] self.parser.yields(state, min_indent, r1) && sound_step(state, r1)
                && match r1 {
                Ok((_, out, next)) => state.offset < next.offset && repeats(
                    self.parser,
                    state,
                    next,
                    min_indent,
                    seq![out],
                    res,
                ),
                Err((Progress::MadeProgress, fail)) => fails_with(
                    res,
                    Progress::MadeProgress,
                    fail,
                ),
                Err((Progress::NoProgress, _)) => exists|e: E|
                    #[trigger] self.to_error.maps((state.pos_spec(),), e) && fails_with(
                        res,
                        Progress::NoProgress,
                        e,
                    ),
            }
    }

    fn parse(&self, arena: &'a Bump, state: State<'a>, min_indent: u32) -> (res: ParseResult<
        'a,
        Vec<T>,
        E,
    >) {
        match self.parser.parse(arena, state.clone(), min_indent) {
            Ok((_, first_output, next_state)) => {
                let mut buf: Vec<T> = Vec::with_capacity(1);
                buf.push(first_output);
                assert(buf@ =~= seq![first_output]);
                repeat_from(&self.parser, arena, &state, next_state, buf, min_indent)
            },
            Err((Progress::MadeProgress, fail)) => Err((Progress::MadeProgress, fail)),
            Err((Progress::NoProgress, _)) => Err(
                (Progress::NoProgress, self.to_error.apply((state.pos(),))),
            ),
        }
    }
}

/// Applies `parser` as often as it succeeds, and collects the outputs. The first
/// application must succeed: where it fails without progress, the whole fails without
/// progress with the error that `to_error` makes of the position where the
/// repetition began. Apart from that it fails only where an application fails after
/// progress, and then with the failure of that application.
pub fn one_or_more<'a, P, F, T, E>(parser: P, to_error: F) -> (p: OneOrMore<P, F>) where
    P: Parser<'a, T, E>,
    F: Apply<(Position,), Output = E>,

    ensures
        p.parser == parser,
        p.to_error == to_error,
{
    OneOrMore { parser, to_error }
}

} // verus!
