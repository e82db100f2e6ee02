//! What each parser of the library means, said once more as a lemma.
//!
//! Verus looks a parser's `wf` and `yields` up by the parser's type. Where that type
//! holds a closure or a named function, it cannot see that the type is a parser at
//! all, and the look-up finds nothing. A lemma that is generic in the function's type
//! has no such trouble: called on the parser, it hands out what `wf` and `yields`
//! stand for. There is one for each kind of parser and one for each kind of function.
use vstd::prelude::*;
use vstd::string::StringSliceAdditionalSpecFns;
use bumpalo::Bump;
use crate::apply::{total, Apply};
use crate::choice::{as_first, as_second, EitherOf, OneOf, Optional};
use crate::indent::{
    line_threshold,
    AbsoluteColumnMinIndent,
    AbsoluteIndentedSeq,
    IncrementMinIndent,
    IndentedSeq,
    LineMinIndent,
    ResetMinIndent,
    SetMinIndent,
};
use crate::literal::{
    at_word,
    matched,
    mismatched,
    newline_free,
    Byte,
    ByteIndent,
    ThreeBytes,
    TwoBytes,
    Word,
    NEWLINE,
};
use crate::parser::{
    consumes_on_success,
    fails_with,
    sound_step,
    succeeds_with,
    Either,
    ParseResult,
    Parser,
    Progress,
};
use crate::region::{Loc, Position, Region};
use crate::repeat::{repeats, OneOrMore, ZeroOrMore};
use crate::separated::{
    element_expected,
    empty_list,
    remapped_list,
    strict_list,
    trailing_list,
    SepBy0,
    SepBy1,
    SepBy1E,
    TrailingSepBy0,
};
use crate::sequence::{first_of, in_sequence, second_of, And, AndThen, SkipFirst, SkipSecond, ThenWith};
use crate::state::{State, MAX_INPUT_LEN};
use crate::trace::{Traced, Tracer};
use crate::transform::{
    Allocated,
    Backtrackable,
    Fail,
    FailWhen,
    Located,
    Mapped,
    MappedWithArena,
    SpecializeErr,
    SpecializeErrRef,
    Succeed,
};

verus! {

/// What a function of one argument accepts and gives, as a function handed to a
/// parser: what its own contract says.
pub proof fn function_of_one_means<F, A, Output>(f: F) where F: Fn(A) -> Output
    ensures
        forall|args: (A,)| #[trigger] f.defined_on(args) == f.requires(args),
        forall|args: (A,), out: Output| #[trigger] f.maps(args, out) == f.ensures(args, out),
{
}

/// What a function of two arguments accepts and gives, as a function handed to a
/// parser: what its own contract says.
pub proof fn function_of_two_means<F, A, B, Output>(f: F) where F: Fn(A, B) -> Output
    ensures
        forall|args: (A, B)| #[trigger] f.defined_on(args) == f.requires(args),
        forall|args: (A, B), out: Output| #[trigger] f.maps(args, out) == f.ensures(args, out),
{
}

/// What a function of four arguments accepts and gives, as a function handed to a
/// parser: what its own contract says.
pub proof fn function_of_four_means<F, A, B, C, D, Output>(f: F) where
    F: Fn(A, B, C, D) -> Output,

    ensures
        forall|args: (A, B, C, D)| #[trigger] f.defined_on(args) == f.requires(args),
        forall|args: (A, B, C, D), out: Output| #[trigger]
            f.maps(args, out) == f.ensures(args, out),
{
}

/// What a function from arena, state and minimum indentation to an outcome is run
/// under and what it yields, as a parser.
pub proof fn function_parser_means<'a, F, Output, Error>(
    p: F,
    state: State<'a>,
    min_indent: u32,
    res: ParseResult<'a, Output, Error>,
) where F: Fn(&'a Bump, State<'a>, u32) -> ParseResult<'a, Output, Error>
    ensures
        Parser::<Output, Error>::wf(&p, min_indent) == ({
            &&& forall|arena: &'a Bump, state: State<'a>|
                state.wf() ==> #[trigger] p.requires((arena, state, min_indent))
            &&& forall|arena: &'a Bump, state: State<'a>, res: ParseResult<'a, Output, Error>|
                state.wf() && #[trigger] p.ensures((arena, state, min_indent), res) ==> sound_step(
                    state,
                    res,
                )
        }),
        p.yields(state, min_indent, res) == (exists|arena: &'a Bump| #[trigger]
            p.ensures((arena, state, min_indent), res)),
{
}

/// What a [`Word`] is run under and what it yields.
pub proof fn word_means<'a, F, E>(
    p: Word<F>,
    state: State<'a>,
    min_indent: u32,
    res: ParseResult<'a, (), E>,
) where
    F: Apply<(Position,), Output = E>,

    ensures
        Parser::<(), E>::wf(&p, min_indent) == ({
            newline_free(p.word.spec_bytes()) && total(p.to_error)
        }),
        p.yields(state, min_indent, res) == ({
            if at_word(state.remaining(), p.word.spec_bytes()) {
                matched(state, p.word.spec_bytes().len() as int, res)
            } else {
                mismatched(p.to_error, state, res)
            }
        }),
{
}

/// What a [`Byte`] is run under and what it yields.
pub proof fn byte_means<'a, F, E>(
    p: Byte<F>,
    state: State<'a>,
    min_indent: u32,
    res: ParseResult<'a, (), E>,
) where
    F: Apply<(Position,), Output = E>,

    ensures
        Parser::<(), E>::wf(&p, min_indent) == ({
            p.byte_to_match != NEWLINE && total(p.to_error)
        }),
        p.yields(state, min_indent, res) == ({
            if state.looking_at(seq![p.byte_to_match]) {
                matched(state, 1, res)
            } else {
                mismatched(p.to_error, state, res)
            }
        }),
{
}

/// What a [`ByteIndent`] is run under and what it yields.
pub proof fn byte_indent_means<'a, F, E>(
    p: ByteIndent<F>,
    state: State<'a>,
    min_indent: u32,
    res: ParseResult<'a, (), E>,
) where
    F: Apply<(Position,), Output = E>,

    ensures
        Parser::<(), E>::wf(&p, min_indent) == ({
            p.byte_to_match != NEWLINE && total(p.to_error)
        }),
        p.yields(state, min_indent, res) == ({
            if min_indent <= state.column_spec() && state.looking_at(seq![p.byte_to_match]) {
                matched(state, 1, res)
            } else {
                mismatched(p.to_error, state, res)
            }
        }),
{
}

/// What a [`TwoBytes`] is run under and what it yields.
pub proof fn two_bytes_means<'a, F, E>(
    p: TwoBytes<F>,
    state: State<'a>,
    min_indent: u32,
    res: ParseResult<'a, (), E>,
) where
    F: Apply<(Position,), Output = E>,

    ensures
        Parser::<(), E>::wf(&p, min_indent) == ({
            p.byte_1 != NEWLINE && p.byte_2 != NEWLINE && total(p.to_error)
        }),
        p.yields(state, min_indent, res) == ({
            if state.looking_at(seq![p.byte_1, p.byte_2]) {
                matched(state, 2, res)
            } else {
                mismatched(p.to_error, state, res)
            }
        }),
{
}

/// What a [`ThreeBytes`] is run under and what it yields.
pub proof fn three_bytes_means<'a, F, E>(
    p: ThreeBytes<F>,
    state: State<'a>,
    min_indent: u32,
    res: ParseResult<'a, (), E>,
) where
    F: Apply<(Position,), Output = E>,

    ensures
        Parser::<(), E>::wf(&p, min_indent) == ({
            &&& p.byte_1 != NEWLINE
            &&& p.byte_2 != NEWLINE
            &&& p.byte_3 != NEWLINE
            &&& total(p.to_error)
        }),
        p.yields(state, min_indent, res) == ({
            if state.looking_at(seq![p.byte_1, p.byte_2, p.byte_3]) {
                matched(state, 3, res)
            } else {
                mismatched(p.to_error, state, res)
            }
        }),
{
}

/// What a [`And`] is run under and what it yields.
pub proof fn and_means<'a, PA, PB, A, B, E>(
    p: And<PA, PB>,
    state: State<'a>,
    min_indent: u32,
    res: ParseResult<'a, (A, B), E>,
) where
    PA: Parser<'a, A, E>,
    PB: Parser<'a, B, E>,

    ensures
        Parser::<(A, B), E>::wf(&p, min_indent) == ({
            p.first.wf(min_indent) && p.second.wf(min_indent)
        }),
        p.yields(state, min_indent, res) == ({
            in_sequence(p.first, p.second, state, min_indent, min_indent, res)
        }),
{
}

/// What a [`SkipFirst`] is run under and what it yields.
pub proof fn skip_first_means<'a, PA, PB, A, B, E>(
    p: SkipFirst<PA, PB, A>,
    state: State<'a>,
    min_indent: u32,
    res: ParseResult<'a, B, E>,
) where
    PA: Parser<'a, A, E>,
    PB: Parser<'a, B, E>,

    ensures
        Parser::<B, E>::wf(&p, min_indent) == ({
            p.first.wf(min_indent) && p.second.wf(min_indent)
        }),
        p.yields(state, min_indent, res) == ({
            exists|both: ParseResult<'a, (A, B), E>| #[trigger]
                in_sequence(p.first, p.second, state, min_indent, min_indent, both) && res
                    == second_of(both)
        }),
{
}

/// What a [`SkipSecond`] is run under and what it yields.
pub proof fn skip_second_means<'a, PA, PB, A, B, E>(
    p: SkipSecond<PA, PB, B>,
    state: State<'a>,
    min_indent: u32,
    res: ParseResult<'a, A, E>,
) where
    PA: Parser<'a, A, E>,
    PB: Parser<'a, B, E>,

    ensures
        Parser::<A, E>::wf(&p, min_indent) == ({
            p.first.wf(min_indent) && p.second.wf(min_indent)
        }),
        p.yields(state, min_indent, res) == ({
            exists|both: ParseResult<'a, (A, B), E>| #[trigger]
                in_sequence(p.first, p.second, state, min_indent, min_indent, both) && res
                    == first_of(both)
        }),
{
}

/// What a [`AndThen`] is run under and what it yields.
pub proof fn and_then_means<'a, PA, PB, F, Before, After, E>(
    p: AndThen<PA, F, Before>,
    state: State<'a>,
    min_indent: u32,
    res: ParseResult<'a, After, E>,
) where
    PA: Parser<'a, Before, E>,
    PB: Parser<'a, After, E>,
    F: Apply<(Progress, Before), Output = PB>,

    ensures
        Parser::<After, E>::wf(&p, min_indent) == ({
            &&& p.parser.wf(min_indent)
            &&& forall|state: State<'a>, progress: Progress, out: Before, mid: State<'a>|
                #[trigger] p.parser.yields(state, min_indent, Ok((progress, out, mid)))
                    ==> p.transform.defined_on((progress, out))
            &&& forall|progress: Progress, out: Before, second: PB| #[trigger]
                p.transform.maps((progress, out), second) ==> second.wf(min_indent)
        }),
        p.yields(state, min_indent, res) == ({
            exists|r1: ParseResult<'a, Before, E>|
                #[trigger] p.parser.yields(state, min_indent, r1) && sound_step(state, r1)
                    && match r1 {
                    Ok((progress, out, mid)) => exists|second: PB|
                        {
                            &&& #[trigger] p.transform.maps((progress, out), second)
                            &&& second.yields(mid, min_indent, res)
                            &&& sound_step(mid, res)
                        },
                    Err((progress, fail)) => fails_with(res, progress, fail),
                }
        }),
{
}

/// What a [`ThenWith`] is run under and what it yields.
pub proof fn then_with_means<'a, PA, F, Before, After, E>(
    p: ThenWith<PA, F, Before>,
    state: State<'a>,
    min_indent: u32,
    res: ParseResult<'a, After, E>,
) where
    PA: Parser<'a, Before, E>,
    F: Apply<(&'a Bump, State<'a>, Progress, Before), Output = ParseResult<'a, After, E>>,

    ensures
        Parser::<After, E>::wf(&p, min_indent) == ({
            &&& p.parser.wf(min_indent)
            &&& forall|
                arena: &'a Bump,
                state: State<'a>,
                progress: Progress,
                out: Before,
                mid: State<'a>,
            |
                #[trigger] p.parser.yields(state, min_indent, Ok((progress, out, mid)))
                    ==> #[trigger] p.transform.defined_on((arena, mid, progress, out))
            &&& forall|
                arena: &'a Bump,
                mid: State<'a>,
                progress: Progress,
                out: Before,
                res: ParseResult<'a, After, E>,
            | #[trigger]
                p.transform.maps((arena, mid, progress, out), res) && mid.wf() ==> sound_step(
                    mid,
                    res,
                )
        }),
        p.yields(state, min_indent, res) == ({
            exists|r1: ParseResult<'a, Before, E>|
                #[trigger] p.parser.yields(state, min_indent, r1) && sound_step(state, r1)
                    && match r1 {
                    Ok((progress, out, mid)) => exists|arena: &'a Bump| #[trigger]
                        p.transform.maps((arena, mid, progress, out), res),
                    Err((progress, fail)) => fails_with(res, progress, fail),
                }
        }),
{
}

/// What a [`OneOf`] is run under and what it yields.
pub proof fn one_of_means<'a, PA, PB, T, E>(
    p: OneOf<PA, PB>,
    state: State<'a>,
    min_indent: u32,
    res: ParseResult<'a, T, E>,
) where
    PA: Parser<'a, T, E>,
    PB: Parser<'a, T, E>,

    ensures
        Parser::<T, E>::wf(&p, min_indent) == ({
            p.first.wf(min_indent) && p.second.wf(min_indent)
        }),
        p.yields(state, min_indent, res) == ({
            exists|r1: ParseResult<'a, T, E>|
                #[trigger] p.first.yields(state, min_indent, r1) && sound_step(state, r1)
                    && match r1 {
                    Ok(_) => res == r1,
                    Err((Progress::MadeProgress, _)) => res == r1,
                    Err((Progress::NoProgress, _)) => p.second.yields(state, min_indent, res)
                        && sound_step(state, res),
                }
        }),
{
}

/// What a [`EitherOf`] is run under and what it yields.
pub proof fn either_means<'a, PA, PB, A, B, E>(
    p: EitherOf<PA, PB>,
    state: State<'a>,
    min_indent: u32,
    res: ParseResult<'a, Either<A, B>, E>,
) where
    PA: Parser<'a, A, E>,
    PB: Parser<'a, B, E>,

    ensures
        Parser::<Either<A, B>, E>::wf(&p, min_indent) == ({
            p.first.wf(min_indent) && p.second.wf(min_indent)
        }),
        p.yields(state, min_indent, res) == ({
            exists|r1: ParseResult<'a, A, E>|
                #[trigger] p.first.yields(state, min_indent, r1) && sound_step(state, r1)
                    && match r1 {
                    Ok(_) => res == as_first::<A, B, E>(r1),
                    Err((Progress::MadeProgress, _)) => res == as_first::<A, B, E>(r1),
                    Err((Progress::NoProgress, _)) => exists|r2: ParseResult<'a, B, E>|
                        #[trigger] p.second.yields(state, min_indent, r2) && sound_step(state, r2)
                            && res == as_second::<A, B, E>(r2),
                }
        }),
{
}

/// What a [`Optional`] is run under and what it yields.
pub proof fn optional_means<'a, P, T, E>(
    p: Optional<P>,
    state: State<'a>,
    min_indent: u32,
    res: ParseResult<'a, Option<T>, E>,
) where
    P: Parser<'a, T, E>,

    ensures
        Parser::<Option<T>, E>::wf(&p, min_indent) == ({
            p.parser.wf(min_indent)
        }),
        p.yields(state, min_indent, res) == ({
            exists|r1: ParseResult<'a, T, E>|
                #[trigger] p.parser.yields(state, min_indent, r1) && sound_step(state, r1)
                    && match r1 {
                    Ok((progress, out, next)) => succeeds_with(res, progress, Some(out), next),
                    Err((Progress::MadeProgress, fail)) => fails_with(
                        res,
                        Progress::MadeProgress,
                        fail,
                    ),
                    Err((Progress::NoProgress, _)) => succeeds_with(
                        res,
                        Progress::NoProgress,
                        None,
                        state,
                    ),
                }
        }),
{
}

/// What a [`ZeroOrMore`] is run under and what it yields.
pub proof fn zero_or_more_means<'a, P, T, E>(
    p: ZeroOrMore<P>,
    state: State<'a>,
    min_indent: u32,
    res: ParseResult<'a, Vec<T>, E>,
) where
    P: Parser<'a, T, E>,

    ensures
        Parser::<Vec<T>, E>::wf(&p, min_indent) == ({
            p.parser.wf(min_indent) && consumes_on_success(p.parser, min_indent)
        }),
        p.yields(state, min_indent, res) == ({
            repeats(p.parser, state, state, min_indent, Seq::empty(), res)
        }),
{
}

/// What a [`OneOrMore`] is run under and what it yields.
pub proof fn one_or_more_means<'a, P, F, T, E>(
    p: OneOrMore<P, F>,
    state: State<'a>,
    min_indent: u32,
    res: ParseResult<'a, Vec<T>, E>,
) where
    P: Parser<'a, T, E>,
    F: Apply<(Position,), Output = E>,

    ensures
        Parser::<Vec<T>, E>::wf(&p, min_indent) == ({
            &&& p.parser.wf(min_indent)
            &&& consumes_on_success(p.parser, min_indent)
            &&& total(p.to_error)
        }),
        p.yields(state, min_indent, res) == ({
            exists|r1: ParseResult<'a, T, E>|
                #[trigger] p.parser.yields(state, min_indent, r1) && sound_step(state, r1)
                    && match r1 {
                    Ok((_, out, next)) => state.offset < next.offset && repeats(
                        p.parser,
                        state,
                        next,
                        min_indent,
                        seq![out],
                        res,
                    ),
                    Err((Progress::MadeProgress, fail)) => fails_with(
                        res,
                        Progress::MadeProgress,
                        fail,
                    ),
                    Err((Progress::NoProgress, _)) => exists|e: E|
                        #[trigger] p.to_error.maps((state.pos_spec(),), e) && fails_with(
                            res,
                            Progress::NoProgress,
                            e,
                        ),
                }
        }),
{
}

/// What a [`SepBy0`] is run under and what it yields.
pub proof fn sep_by0_means<'a, D, P, T, E>(
    p: SepBy0<D, P>,
    state: State<'a>,
    min_indent: u32,
    res: ParseResult<'a, Vec<T>, E>,
) where
    D: Parser<'a, (), E>,
    P: Parser<'a, T, E>,

    ensures
        Parser::<Vec<T>, E>::wf(&p, min_indent) == ({
            &&& p.delimiter.wf(min_indent)
            &&& p.parser.wf(min_indent)
            &&& consumes_on_success(p.parser, min_indent)
        }),
        p.yields(state, min_indent, res) == ({
            exists|r1: ParseResult<'a, T, E>|
                #[trigger] p.parser.yields(state, min_indent, r1) && sound_step(state, r1)
                    && match r1 {
                    Ok((_, out, next)) => state.offset < next.offset && strict_list(
                        p.delimiter,
                        p.parser,
                        next,
                        min_indent,
                        out,
                        res,
                    ),
                    Err((Progress::MadeProgress, fail)) => fails_with(
                        res,
                        Progress::MadeProgress,
                        fail,
                    ),
                    Err((Progress::NoProgress, _)) => empty_list(res, state),
                }
        }),
{
}

/// What a [`TrailingSepBy0`] is run under and what it yields.
pub proof fn trailing_sep_by0_means<'a, D, P, T, E>(
    p: TrailingSepBy0<D, P>,
    state: State<'a>,
    min_indent: u32,
    res: ParseResult<'a, Vec<T>, E>,
) where
    D: Parser<'a, (), E>,
    P: Parser<'a, T, E>,

    ensures
        Parser::<Vec<T>, E>::wf(&p, min_indent) == ({
            &&& p.delimiter.wf(min_indent)
            &&& p.parser.wf(min_indent)
            &&& consumes_on_success(p.parser, min_indent)
        }),
        p.yields(state, min_indent, res) == ({
            exists|r1: ParseResult<'a, T, E>|
                #[trigger] p.parser.yields(state, min_indent, r1) && sound_step(state, r1)
                    && match r1 {
                    Ok((_, out, next)) => state.offset < next.offset && trailing_list(
                        p.delimiter,
                        p.parser,
                        next,
                        min_indent,
                        out,
                        res,
                    ),
                    Err((Progress::MadeProgress, fail)) => fails_with(
                        res,
                        Progress::MadeProgress,
                        fail,
                    ),
                    Err((Progress::NoProgress, _)) => empty_list(res, state),
                }
        }),
{
}

/// What a [`SepBy1`] is run under and what it yields.
pub proof fn sep_by1_means<'a, D, P, T, E>(
    p: SepBy1<D, P>,
    state: State<'a>,
    min_indent: u32,
    res: ParseResult<'a, Vec<T>, E>,
) where
    D: Parser<'a, (), E>,
    P: Parser<'a, T, E>,

    ensures
        Parser::<Vec<T>, E>::wf(&p, min_indent) == ({
            &&& p.delimiter.wf(min_indent)
            &&& p.parser.wf(min_indent)
            &&& consumes_on_success(p.parser, min_indent)
        }),
        p.yields(state, min_indent, res) == ({
            exists|r1: ParseResult<'a, T, E>|
                #[trigger] p.parser.yields(state, min_indent, r1) && sound_step(state, r1)
                    && match r1 {
                    Ok((_, out, next)) => state.offset < next.offset && strict_list(
                        p.delimiter,
                        p.parser,
                        next,
                        min_indent,
                        out,
                        res,
                    ),
                    Err((progress, fail)) => fails_with(res, progress, fail),
                }
        }),
{
}

/// What a [`SepBy1E`] is run under and what it yields.
pub proof fn sep_by1_e_means<'a, D, P, V, T, E>(
    p: SepBy1E<D, P, V>,
    state: State<'a>,
    min_indent: u32,
    res: ParseResult<'a, Vec<T>, E>,
) where
    D: Parser<'a, (), E>,
    P: Parser<'a, T, E>,
    V: Apply<(Position,), Output = E>,

    ensures
        Parser::<Vec<T>, E>::wf(&p, min_indent) == ({
            &&& p.delimiter.wf(min_indent)
            &&& p.parser.wf(min_indent)
            &&& consumes_on_success(p.parser, min_indent)
            &&& total(p.to_element_error)
        }),
        p.yields(state, min_indent, res) == ({
            exists|r1: ParseResult<'a, T, E>|
                #[trigger] p.parser.yields(state, min_indent, r1) && sound_step(state, r1)
                    && match r1 {
                    Ok((_, out, next)) => state.offset < next.offset && remapped_list(
                        p.delimiter,
                        p.parser,
                        p.to_element_error,
                        next,
                        min_indent,
                        out,
                        res,
                    ),
                    Err((Progress::MadeProgress, fail)) => fails_with(
                        res,
                        Progress::MadeProgress,
                        fail,
                    ),
                    Err((Progress::NoProgress, _)) => element_expected(
                        p.to_element_error,
                        state,
                        res,
                    ),
                }
        }),
{
}

/// What a [`Mapped`] is run under and what it yields.
pub proof fn map_means<'a, P, F, Before, After, E>(
    p: Mapped<P, F, Before>,
    state: State<'a>,
    min_indent: u32,
    res: ParseResult<'a, After, E>,
) where
    P: Parser<'a, Before, E>,
    F: Apply<(Before,), Output = After>,

    ensures
        Parser::<After, E>::wf(&p, min_indent) == ({
            &&& p.parser.wf(min_indent)
            &&& forall|state: State<'a>, progress: Progress, out: Before, next: State<'a>|
                #[trigger] p.parser.yields(state, min_indent, Ok((progress, out, next)))
                    ==> p.transform.defined_on((out,))
        }),
        p.yields(state, min_indent, res) == ({
            exists|r1: ParseResult<'a, Before, E>|
                #[trigger] p.parser.yields(state, min_indent, r1) && sound_step(state, r1)
                    && match r1 {
                    Ok((progress, out, next)) => exists|mapped: After|
                        #[trigger] p.transform.maps((out,), mapped) && succeeds_with(
                            res,
                            progress,
                            mapped,
                            next,
                        ),
                    Err((progress, fail)) => fails_with(res, progress, fail),
                }
        }),
{
}

/// What a [`MappedWithArena`] is run under and what it yields.
pub proof fn mapped_with_arena_means<'a, P, F, Before, After, E>(
    p: MappedWithArena<P, F, Before>,
    state: State<'a>,
    min_indent: u32,
    res: ParseResult<'a, After, E>,
) where
    P: Parser<'a, Before, E>,
    F: Apply<(&'a Bump, Before), Output = After>,

    ensures
        Parser::<After, E>::wf(&p, min_indent) == ({
            &&& p.parser.wf(min_indent)
            &&& forall|
                arena: &'a Bump,
                state: State<'a>,
                progress: Progress,
                out: Before,
                next: State<'a>,
            |
                #[trigger] p.parser.yields(state, min_indent, Ok((progress, out, next)))
                    ==> #[trigger] p.transform.defined_on((arena, out))
        }),
        p.yields(state, min_indent, res) == ({
            exists|r1: ParseResult<'a, Before, E>|
                #[trigger] p.parser.yields(state, min_indent, r1) && sound_step(state, r1)
                    && match r1 {
                    Ok((progress, out, next)) => exists|arena: &'a Bump, mapped: After|
                        #[trigger] p.transform.maps((arena, out), mapped) && succeeds_with(
                            res,
                            progress,
                            mapped,
                            next,
                        ),
                    Err((progress, fail)) => fails_with(res, progress, fail),
                }
        }),
{
}

/// What a [`SpecializeErr`] is run under and what it yields.
pub proof fn specialize_err_means<'a, F, P, T, X, Y>(
    p: SpecializeErr<F, P, X>,
    state: State<'a>,
    min_indent: u32,
    res: ParseResult<'a, T, Y>,
) where
    F: Apply<(X, Position), Output = Y>,
    P: Parser<'a, T, X>,

    ensures
        Parser::<T, Y>::wf(&p, min_indent) == ({
            &&& p.parser.wf(min_indent)
            &&& forall|state: State<'a>, progress: Progress, fail: X, pos: Position|
                #[trigger] p.parser.yields(state, min_indent, Err((progress, fail)))
                    ==> #[trigger] p.map_error.defined_on((fail, pos))
        }),
        p.yields(state, min_indent, res) == ({
            exists|r1: ParseResult<'a, T, X>|
                #[trigger] p.parser.yields(state, min_indent, r1) && sound_step(state, r1)
                    && match r1 {
                    Ok((progress, out, next)) => succeeds_with(res, progress, out, next),
                    Err((progress, fail)) => exists|mapped: Y|
                        #[trigger] p.map_error.maps((fail, state.pos_spec()), mapped)
                            && fails_with(res, progress, mapped),
                }
        }),
{
}

/// What a [`SpecializeErrRef`] is run under and what it yields.
pub proof fn specialize_err_ref_means<'a, F, P, T, X, Y>(
    p: SpecializeErrRef<F, P, X>,
    state: State<'a>,
    min_indent: u32,
    res: ParseResult<'a, T, Y>,
) where
    F: Apply<(&'a X, Position), Output = Y>,
    P: Parser<'a, T, X>,
    X: 'a,

    ensures
        Parser::<T, Y>::wf(&p, min_indent) == ({
            &&& p.parser.wf(min_indent)
            &&& forall|state: State<'a>, progress: Progress, fail: X, pos: Position|
                #[trigger] p.parser.yields(state, min_indent, Err((progress, fail)))
                    ==> #[trigger] p.map_error.defined_on((&fail, pos))
        }),
        p.yields(state, min_indent, res) == ({
            exists|r1: ParseResult<'a, T, X>|
                #[trigger] p.parser.yields(state, min_indent, r1) && sound_step(state, r1)
                    && match r1 {
                    Ok((progress, out, next)) => succeeds_with(res, progress, out, next),
                    Err((progress, fail)) => exists|mapped: Y|
                        #[trigger] p.map_error.maps((&fail, state.pos_spec()), mapped)
                            && fails_with(res, progress, mapped),
                }
        }),
{
}

/// What a [`Allocated`] is run under and what it yields.
pub proof fn allocated_means<'a, P, Val, E>(
    p: Allocated<P>,
    state: State<'a>,
    min_indent: u32,
    res: ParseResult<'a, &'a Val, E>,
) where
    P: Parser<'a, Val, E>,
    Val: 'a,

    ensures
        Parser::<&'a Val, E>::wf(&p, min_indent) == ({
            p.parser.wf(min_indent)
        }),
        p.yields(state, min_indent, res) == ({
            exists|r1: ParseResult<'a, Val, E>|
                #[trigger] p.parser.yields(state, min_indent, r1) && sound_step(state, r1)
                    && match r1 {
                    Ok((progress, out, next)) => succeeds_with(res, progress, &out, next),
                    Err((progress, fail)) => fails_with(res, progress, fail),
                }
        }),
{
}

/// What a [`Backtrackable`] is run under and what it yields.
pub proof fn backtrackable_means<'a, P, Val, E>(
    p: Backtrackable<P, E>,
    state: State<'a>,
    min_indent: u32,
    res: ParseResult<'a, Val, ()>,
) where
    P: Parser<'a, Val, E>,

    ensures
        Parser::<Val, ()>::wf(&p, min_indent) == ({
            p.parser.wf(min_indent)
        }),
        p.yields(state, min_indent, res) == ({
            exists|r1: ParseResult<'a, Val, E>|
                #[trigger] p.parser.yields(state, min_indent, r1) && sound_step(state, r1)
                    && match r1 {
                    Ok((_, out, next)) => succeeds_with(res, Progress::NoProgress, out, next),
                    Err(_) => fails_with(res, Progress::NoProgress, ()),
                }
        }),
{
}

/// What a [`Located`] is run under and what it yields.
pub proof fn loc_means<'a, P, Val, E>(
    p: Located<P>,
    state: State<'a>,
    min_indent: u32,
    res: ParseResult<'a, Loc<Val>, E>,
) where
    P: Parser<'a, Val, E>,

    ensures
        Parser::<Loc<Val>, E>::wf(&p, min_indent) == ({
            p.parser.wf(min_indent)
        }),
        p.yields(state, min_indent, res) == ({
            exists|r1: ParseResult<'a, Val, E>|
                #[trigger] p.parser.yields(state, min_indent, r1) && sound_step(state, r1)
                    && match r1 {
                    Ok((progress, value, next)) => succeeds_with(
                        res,
                        progress,
                        Loc { region: Region { start: state.pos_spec(), end: next.pos_spec() }, value },
                        next,
                    ),
                    Err((progress, fail)) => fails_with(res, progress, fail),
                }
        }),
{
}

/// What a [`Succeed`] is run under and what it yields.
pub proof fn succeed_means<'a, T: Clone, E>(
    p: Succeed<T>,
    state: State<'a>,
    min_indent: u32,
    res: ParseResult<'a, T, E>,
)
    ensures
        Parser::<T, E>::wf(&p, min_indent) == ({
            true
        }),
        p.yields(state, min_indent, res) == ({
            &&& res matches Ok((progress, out, next))
            &&& progress == Progress::NoProgress
            &&& cloned(p.value, out)
            &&& next == state
        }),
{
}

/// What a [`FailWhen`] is run under and what it yields.
pub proof fn fail_when_means<'a, T, T2, E, F, P>(
    p: FailWhen<F, P, T2>,
    state: State<'a>,
    min_indent: u32,
    res: ParseResult<'a, T, E>,
) where
    F: Apply<(Position,), Output = E>,
    P: Parser<'a, T2, E>,

    ensures
        Parser::<T, E>::wf(&p, min_indent) == ({
            &&& p.parser.wf(min_indent)
            &&& total(p.to_error)
        }),
        p.yields(state, min_indent, res) == ({
            exists|r1: ParseResult<'a, T2, E>|
                #[trigger] p.parser.yields(state, min_indent, r1) && sound_step(state, r1)
                    && match r1 {
                    Ok(_) => exists|e: E|
                        #[trigger] p.to_error.maps((state.pos_spec(),), e) && fails_with(
                            res,
                            Progress::MadeProgress,
                            e,
                        ),
                    Err((progress, fail)) => fails_with(res, progress, fail),
                }
        }),
{
}

/// What a [`Fail`] is run under and what it yields.
pub proof fn fail_means<'a, T, E, F>(
    p: Fail<F>,
    state: State<'a>,
    min_indent: u32,
    res: ParseResult<'a, T, E>,
) where
    F: Apply<(Position,), Output = E>,

    ensures
        Parser::<T, E>::wf(&p, min_indent) == ({
            total(p.to_error)
        }),
        p.yields(state, min_indent, res) == ({
            exists|e: E|
                #[trigger] p.to_error.maps((state.pos_spec(),), e) && fails_with(
                    res,
                    Progress::NoProgress,
                    e,
                )
        }),
{
}

/// What a [`ResetMinIndent`] is run under and what it yields.
pub proof fn reset_min_indent_means<'a, P, T, X>(
    p: ResetMinIndent<P>,
    state: State<'a>,
    min_indent: u32,
    res: ParseResult<'a, T, X>,
) where
    P: Parser<'a, T, X>,

    ensures
        Parser::<T, X>::wf(&p, min_indent) == ({
            p.parser.wf(0)
        }),
        p.yields(state, min_indent, res) == ({
            p.parser.yields(state, 0, res)
        }),
{
}

/// What a [`SetMinIndent`] is run under and what it yields.
pub proof fn set_min_indent_means<'a, P, T, X>(
    p: SetMinIndent<P>,
    state: State<'a>,
    min_indent: u32,
    res: ParseResult<'a, T, X>,
) where
    P: Parser<'a, T, X>,

    ensures
        Parser::<T, X>::wf(&p, min_indent) == ({
            p.parser.wf(p.min_indent)
        }),
        p.yields(state, min_indent, res) == ({
            p.parser.yields(state, p.min_indent, res)
        }),
{
}

/// What a [`IncrementMinIndent`] is run under and what it yields.
pub proof fn increment_min_indent_means<'a, P, T, X>(
    p: IncrementMinIndent<P>,
    state: State<'a>,
    min_indent: u32,
    res: ParseResult<'a, T, X>,
) where
    P: Parser<'a, T, X>,

    ensures
        Parser::<T, X>::wf(&p, min_indent) == ({
            min_indent < u32::MAX && p.parser.wf((min_indent + 1) as u32)
        }),
        p.yields(state, min_indent, res) == ({
            p.parser.yields(state, (min_indent + 1) as u32, res)
        }),
{
}

/// What a [`LineMinIndent`] is run under and what it yields.
pub proof fn line_min_indent_means<'a, P, T, X>(
    p: LineMinIndent<P>,
    state: State<'a>,
    min_indent: u32,
    res: ParseResult<'a, T, X>,
) where
    P: Parser<'a, T, X>,

    ensures
        Parser::<T, X>::wf(&p, min_indent) == ({
            forall|indent: u32|
                min_indent <= indent && (indent == min_indent || indent <= MAX_INPUT_LEN)
                    ==> #[trigger] p.parser.wf(indent)
        }),
        p.yields(state, min_indent, res) == ({
            p.parser.yields(state, line_threshold(state, min_indent), res)
        }),
{
}

/// What a [`AbsoluteColumnMinIndent`] is run under and what it yields.
pub proof fn absolute_column_min_indent_means<'a, P, T, X>(
    p: AbsoluteColumnMinIndent<P>,
    state: State<'a>,
    min_indent: u32,
    res: ParseResult<'a, T, X>,
) where
    P: Parser<'a, T, X>,

    ensures
        Parser::<T, X>::wf(&p, min_indent) == ({
            forall|indent: u32| 1 <= indent <= MAX_INPUT_LEN + 1 ==> #[trigger] p.parser.wf(indent)
        }),
        p.yields(state, min_indent, res) == ({
            p.parser.yields(state, (state.column_spec() + 1) as u32, res)
        }),
{
}

/// What a [`IndentedSeq`] is run under and what it yields.
pub proof fn indented_seq_means<'a, PA, PB, B, E>(
    p: IndentedSeq<PA, PB>,
    state: State<'a>,
    min_indent: u32,
    res: ParseResult<'a, B, E>,
) where
    PA: Parser<'a, (), E>,
    PB: Parser<'a, B, E>,

    ensures
        Parser::<B, E>::wf(&p, min_indent) == ({
            &&& forall|indent: u32| indent <= MAX_INPUT_LEN ==> #[trigger] p.first.wf(indent)
            &&& forall|indent: u32|
                1 <= indent <= MAX_INPUT_LEN + 1 ==> #[trigger] p.second.wf(indent)
        }),
        p.yields(state, min_indent, res) == ({
            exists|both: ParseResult<'a, ((), B), E>| #[trigger]
                in_sequence(
                    p.first,
                    p.second,
                    state,
                    state.line_indent_spec() as u32,
                    (state.line_indent_spec() + 1) as u32,
                    both,
                ) && res == second_of(both)
        }),
{
}

/// What a [`AbsoluteIndentedSeq`] is run under and what it yields.
pub proof fn absolute_indented_seq_means<'a, PA, PB, A, B, E>(
    p: AbsoluteIndentedSeq<PA, PB>,
    state: State<'a>,
    min_indent: u32,
    res: ParseResult<'a, (A, B), E>,
) where
    PA: Parser<'a, A, E>,
    PB: Parser<'a, B, E>,

    ensures
        Parser::<(A, B), E>::wf(&p, min_indent) == ({
            &&& forall|indent: u32| indent <= MAX_INPUT_LEN ==> #[trigger] p.first.wf(indent)
            &&& forall|indent: u32|
                1 <= indent <= MAX_INPUT_LEN + 1 ==> #[trigger] p.second.wf(indent)
        }),
        p.yields(state, min_indent, res) == ({
            in_sequence(
                p.first,
                p.second,
                state,
                state.column_spec() as u32,
                (state.column_spec() + 1) as u32,
                res,
            )
        }),
{
}

/// What a [`Traced`] is run under and what it yields.
pub proof fn traced_means<'a, O, E, P, R>(
    p: Traced<P, R>,
    state: State<'a>,
    min_indent: u32,
    res: ParseResult<'a, O, E>,
) where
    O: core::fmt::Debug,
    E: core::fmt::Debug,
    P: Parser<'a, O, E>,
    R: Tracer,

    ensures
        Parser::<O, E>::wf(&p, min_indent) == ({
            p.parser.wf(min_indent)
        }),
        p.yields(state, min_indent, res) == ({
            p.parser.yields(state, min_indent, res)
        }),
{
}

} // verus!
