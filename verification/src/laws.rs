//! What holds of every parser built from this library.
use vstd::prelude::*;
use vstd::string::StringSliceAdditionalSpecFns;
use crate::choice::{EitherOf, OneOf, Optional};
use crate::indent::{
    AbsoluteColumnMinIndent,
    AbsoluteIndentedSeq,
    IncrementMinIndent,
    IndentedSeq,
    LineMinIndent,
    ResetMinIndent,
    SetMinIndent,
};
use crate::literal::{mismatched, Byte, ByteIndent, ThreeBytes, TwoBytes, Word};
use crate::apply::Apply;
use crate::parser::{
    consumes_on_success,
    fails_with,
    honest_step,
    progress_honest,
    progress_of,
    sound_step,
    succeeds_with,
    ParseResult,
    Parser,
    Progress,
};
use crate::region::{Loc, Position};
use crate::repeat::{repeats, OneOrMore, ZeroOrMore};
use crate::separated::{
    continues_list,
    element_expected,
    empty_list,
    ends_ahead_of,
    list_of,
    trailing_list,
    ListEnd,
    SepBy0,
    SepBy1,
    SepBy1E,
    TrailingSepBy0,
};
use crate::sequence::{in_sequence, And, SkipFirst, SkipSecond};
use crate::state::State;
use crate::trace::{Traced, Tracer};
use crate::transform::{
    Allocated,
    Backtrackable,
    Fail,
    FailWhen,
    Located,
    Mapped,
    MappedWithArena,
    SpecializeErr,
    SpecializeErrRef,
    Succeed,
};

verus! {

/// A matcher of a single byte reports progress exactly when it consumed input.
pub proof fn byte_progress_honest<'a, F: Apply<(Position,), Output = E>, E>(p: Byte<F>)
    ensures
        progress_honest::<(), E, _>(p),
{
}

/// A matcher of a single indented byte reports progress exactly when it consumed
/// input.
pub proof fn byte_indent_progress_honest<'a, F: Apply<(Position,), Output = E>, E>(p: ByteIndent<F>)
    ensures
        progress_honest::<(), E, _>(p),
{
}

/// A matcher of two bytes reports progress exactly when it consumed input.
pub proof fn two_bytes_progress_honest<'a, F: Apply<(Position,), Output = E>, E>(p: TwoBytes<F>)
    ensures
        progress_honest::<(), E, _>(p),
{
}

/// A matcher of three bytes reports progress exactly when it consumed input.
pub proof fn three_bytes_progress_honest<'a, F: Apply<(Position,), Output = E>, E>(p: ThreeBytes<F>)
    ensures
        progress_honest::<(), E, _>(p),
{
}

/// A matcher of a word that is not empty reports progress exactly when it consumed
/// input.
pub proof fn word_progress_honest<'a, F: Apply<(Position,), Output = E>, E>(p: Word<F>)
    requires
        p.word.spec_bytes().len() > 0,
    ensures
        progress_honest::<(), E, _>(p),
{
}

/// A sequence of two parsers that report their progress honestly does so too.
pub proof fn and_progress_honest<'a, PA, PB, A, B, E>(p: And<PA, PB>) where
    PA: Parser<'a, A, E>,
    PB: Parser<'a, B, E>,

    requires
        progress_honest(p.first),
        progress_honest(p.second),
    ensures
        progress_honest::<(A, B), E, _>(p),
{
}

/// A sequence that keeps its second output reports its progress honestly if both
/// parsers do.
pub proof fn skip_first_progress_honest<'a, PA, PB, A, B, E>(p: SkipFirst<PA, PB, A>) where
    PA: Parser<'a, A, E>,
    PB: Parser<'a, B, E>,

    requires
        progress_honest(p.first),
        progress_honest(p.second),
    ensures
        progress_honest::<B, E, _>(p),
{
}

/// A sequence that keeps its first output reports its progress honestly if both
/// parsers do.
pub proof fn skip_second_progress_honest<'a, PA, PB, A, B, E>(p: SkipSecond<PA, PB, B>) where
    PA: Parser<'a, A, E>,
    PB: Parser<'a, B, E>,

    requires
        progress_honest(p.first),
        progress_honest(p.second),
    ensures
        progress_honest::<A, E, _>(p),
{
}

/// A choice between two parsers that report their progress honestly does so too.
pub proof fn one_of_progress_honest<'a, PA, PB, T, E>(p: OneOf<PA, PB>) where
    PA: Parser<'a, T, E>,
    PB: Parser<'a, T, E>,

    requires
        progress_honest(p.first),
        progress_honest(p.second),
    ensures
        progress_honest::<T, E, _>(p),
{
}

/// A choice between two parsers with different outputs reports its progress
/// honestly if both parsers do.
pub proof fn either_progress_honest<'a, PA, PB, A, B, E>(p: EitherOf<PA, PB>) where
    PA: Parser<'a, A, E>,
    PB: Parser<'a, B, E>,

    requires
        progress_honest(p.first),
        progress_honest(p.second),
    ensures
        progress_honest::<crate::parser::Either<A, B>, E, _>(p),
{
}

/// An introducer with its indented body reports its progress honestly if both
/// parsers do.
pub proof fn indented_seq_progress_honest<'a, PA, PB, B, E>(p: IndentedSeq<PA, PB>) where
    PA: Parser<'a, (), E>,
    PB: Parser<'a, B, E>,

    requires
        progress_honest(p.first),
        progress_honest(p.second),
    ensures
        progress_honest::<B, E, _>(p),
{
}

/// A sequence indented by the column of its start reports its progress honestly
/// if both parsers do.
pub proof fn absolute_indented_seq_progress_honest<'a, PA, PB, A, B, E>(p: AbsoluteIndentedSeq<PA, PB>) where
    PA: Parser<'a, A, E>,
    PB: Parser<'a, B, E>,

    requires
        progress_honest(p.first),
        progress_honest(p.second),
    ensures
        progress_honest::<(A, B), E, _>(p),
{
}

/// An optional parser reports its progress honestly if the parser does.
pub proof fn optional_progress_honest<'a, P, T, E>(p: Optional<P>) where
    P: Parser<'a, T, E>,

    requires
        progress_honest(p.parser),
    ensures
        progress_honest::<Option<T>, E, _>(p),
{
}

/// A parser with its output transformed reports its progress honestly if the
/// parser does.
pub proof fn map_progress_honest<'a, P, F, Before, After, E>(p: Mapped<P, F, Before>) where
    P: Parser<'a, Before, E>,
    F: Apply<(Before,), Output = After>,

    requires
        progress_honest(p.parser),
    ensures
        progress_honest::<After, E, _>(p),
{
}

/// A parser with its output transformed in the arena reports its progress
/// honestly if the parser does.
pub proof fn map_with_arena_progress_honest<'a, P, F, Before, After, E>(p: MappedWithArena<P, F, Before>) where
    P: Parser<'a, Before, E>,
    F: Apply<(&'a bumpalo::Bump, Before), Output = After>,

    requires
        progress_honest(p.parser),
    ensures
        progress_honest::<After, E, _>(p),
{
}

/// A parser with its error transformed reports its progress honestly if the
/// parser does.
pub proof fn specialize_err_progress_honest<'a, F, P, T, X, Y>(p: SpecializeErr<F, P, X>) where
    F: Apply<(X, Position), Output = Y>,
    P: Parser<'a, T, X>,

    requires
        progress_honest(p.parser),
    ensures
        progress_honest::<T, Y, _>(p),
{
}

/// A parser with its error kept in the arena reports its progress honestly if the
/// parser does.
pub proof fn specialize_err_ref_progress_honest<'a, F, P, T, X, Y>(p: SpecializeErrRef<F, P, X>) where
    F: Apply<(&'a X, Position), Output = Y>,
    P: Parser<'a, T, X>,
    X: 'a,

    requires
        progress_honest(p.parser),
    ensures
        progress_honest::<T, Y, _>(p),
{
}

/// A parser with its output moved into the arena reports its progress honestly
/// if the parser does.
pub proof fn allocated_progress_honest<'a, P, Val, E>(p: Allocated<P>) where
    P: Parser<'a, Val, E>,
    Val: 'a,

    requires
        progress_honest(p.parser),
    ensures
        progress_honest::<&'a Val, E, _>(p),
{
}

/// A parser with the span of its output reports its progress honestly if the
/// parser does.
pub proof fn loc_progress_honest<'a, P, Val, E>(p: Located<P>) where
    P: Parser<'a, Val, E>,

    requires
        progress_honest(p.parser),
    ensures
        progress_honest::<Loc<Val>, E, _>(p),
{
}

/// A parser freed from the indentation around it reports its progress honestly if the parser
/// does.
pub proof fn reset_min_indent_progress_honest<'a, P, T, X>(p: ResetMinIndent<P>) where
    P: Parser<'a, T, X>,

    requires
        progress_honest(p.parser),
    ensures
        progress_honest::<T, X, _>(p),
{
}

/// A parser under a fixed minimum indentation reports its progress honestly if the parser
/// does.
pub proof fn set_min_indent_progress_honest<'a, P, T, X>(p: SetMinIndent<P>) where
    P: Parser<'a, T, X>,

    requires
        progress_honest(p.parser),
    ensures
        progress_honest::<T, X, _>(p),
{
}

/// A parser indented one column more reports its progress honestly if the parser
/// does.
pub proof fn increment_min_indent_progress_honest<'a, P, T, X>(p: IncrementMinIndent<P>) where
    P: Parser<'a, T, X>,

    requires
        progress_honest(p.parser),
    ensures
        progress_honest::<T, X, _>(p),
{
}

/// A parser indented as far as its line reports its progress honestly if the parser
/// does.
pub proof fn line_min_indent_progress_honest<'a, P, T, X>(p: LineMinIndent<P>) where
    P: Parser<'a, T, X>,

    requires
        progress_honest(p.parser),
    ensures
        progress_honest::<T, X, _>(p),
{
}

/// A parser right of the cursor's column reports its progress honestly if the parser
/// does.
pub proof fn absolute_column_min_indent_progress_honest<'a, P, T, X>(p: AbsoluteColumnMinIndent<P>) where
    P: Parser<'a, T, X>,

    requires
        progress_honest(p.parser),
    ensures
        progress_honest::<T, X, _>(p),
{
}

/// A parser that always succeeds without progress in the state it started from
/// reports its progress honestly.
pub proof fn succeed_progress_honest<'a, T: Clone, E>(p: Succeed<T>)
    ensures
        progress_honest::<T, E, _>(p),
{
}

/// A parser that never succeeds has no success to be dishonest about.
pub proof fn fail_progress_honest<'a, T, E, F: Apply<(Position,), Output = E>>(p: Fail<F>)
    ensures
        progress_honest::<T, E, _>(p),
{
}

/// A parser that fails where another succeeds has no success to be dishonest about.
pub proof fn fail_when_progress_honest<'a, T, T2, E, F, P>(p: FailWhen<F, P, T2>) where
    F: Apply<(Position,), Output = E>,
    P: Parser<'a, T2, E>,

    ensures
        progress_honest::<T, E, _>(p),
{
}

/// A repetition that has come to `cur` ends, where it succeeds, in a state that
/// continues `cur`, with progress exactly when it has moved on from `start`.
proof fn lemma_repeats_ends_ahead<'a, T, E, P: Parser<'a, T, E>>(
    parser: P,
    start: State<'a>,
    cur: State<'a>,
    min_indent: u32,
    acc: Seq<T>,
    res: ParseResult<'a, Vec<T>, E>,
)
    requires
        cur.wf(),
        repeats(parser, start, cur, min_indent, acc, res),
    ensures
        res matches Ok((progress, _, end)) ==> end.continues(cur) && progress == Progress::when(
            start.offset != end.offset,
        ),
    decreases cur.original_bytes@.len() - cur.offset,
{
    let r = choose|r: ParseResult<'a, T, E>|
        #[trigger] parser.yields(cur, min_indent, r) && sound_step(cur, r) && match r {
            Ok((_, out, next)) => cur.offset < next.offset && repeats(
                parser,
                start,
                next,
                min_indent,
                acc.push(out),
                res,
            ),
            Err((Progress::MadeProgress, fail)) => fails_with(res, Progress::MadeProgress, fail),
            Err((Progress::NoProgress, _)) => {
                &&& res matches Ok((progress, items, end))
                &&& progress == Progress::when(start.offset != cur.offset)
                &&& items@ == acc
                &&& end == cur
            },
        };
    match r {
        Ok((_, out, next)) => {
            lemma_repeats_ends_ahead(parser, start, next, min_indent, acc.push(out), res);
        },
        _ => {},
    }
}

/// A repetition reports progress exactly when it consumed input, whatever its
/// element parser reports.
pub proof fn zero_or_more_progress_honest<'a, P, T, E>(p: ZeroOrMore<P>) where
    P: Parser<'a, T, E>,

    ensures
        progress_honest::<Vec<T>, E, _>(p),
{
    assert forall|state: State<'a>, min_indent: u32, res: ParseResult<'a, Vec<T>, E>|
        state.wf() && #[trigger] p.yields(state, min_indent, res) && sound_step(
            state,
            res,
        ) implies honest_step(state, res) by {
        lemma_repeats_ends_ahead(p.parser, state, state, min_indent, Seq::empty(), res);
    }
}

/// A repetition of at least one element reports progress exactly when it consumed
/// input, whatever its element parser reports.
pub proof fn one_or_more_progress_honest<'a, P, F, T, E>(p: OneOrMore<P, F>) where
    P: Parser<'a, T, E>,
    F: Apply<(Position,), Output = E>,

    ensures
        progress_honest::<Vec<T>, E, _>(p),
{
    assert forall|state: State<'a>, min_indent: u32, res: ParseResult<'a, Vec<T>, E>|
        state.wf() && #[trigger] p.yields(state, min_indent, res) && sound_step(
            state,
            res,
        ) implies honest_step(state, res) by {
        assert forall|next: State<'a>, out: T|
            state.offset < next.offset && next.continues(state) && #[trigger] repeats(
                p.parser,
                state,
                next,
                min_indent,
                seq![out],
                res,
            ) implies honest_step(state, res) by {
            lemma_repeats_ends_ahead(p.parser, state, next, min_indent, seq![out], res);
        }
    }
}

/// The part of a list behind `cur` ends, where it ends without a failure of the
/// delimiter, in a state that continues `cur`.
proof fn lemma_list_ends_ahead<'a, T, E, D: Parser<'a, (), E>, P: Parser<'a, T, E>>(
    delimiter: D,
    parser: P,
    cur: State<'a>,
    min_indent: u32,
    acc: Seq<T>,
    end: ListEnd<'a, T, E>,
)
    requires
        cur.wf(),
        continues_list(delimiter, parser, cur, min_indent, acc, end),
    ensures
        ends_ahead_of(end, cur),
    decreases cur.original_bytes@.len() - cur.offset,
{
    let rd = choose|rd: ParseResult<'a, (), E>|
        #[trigger] delimiter.yields(cur, min_indent, rd) && sound_step(cur, rd) && match rd {
            Err((Progress::NoProgress, _)) => {
                &&& end matches ListEnd::Complete { items, end: last }
                &&& items@ == acc
                &&& last == cur
            },
            Err((Progress::MadeProgress, fail)) => {
                &&& end matches ListEnd::DelimiterFailed { fail: failed }
                &&& failed == fail
            },
            Ok((_, _, after_delimiter)) => exists|re: ParseResult<'a, T, E>|
                #[trigger] parser.yields(after_delimiter, min_indent, re) && sound_step(
                    after_delimiter,
                    re,
                ) && match re {
                    Ok((_, out, next)) => cur.offset < next.offset && continues_list(
                        delimiter,
                        parser,
                        next,
                        min_indent,
                        acc.push(out),
                        end,
                    ),
                    Err((progress, fail)) => {
                        &&& end matches ListEnd::ElementMissing {
                            items,
                            after_delimiter: reached,
                            progress: element_progress,
                            fail: failed,
                        }
                        &&& items@ == acc
                        &&& reached == after_delimiter
                        &&& element_progress == progress
                        &&& failed == fail
                    },
                },
        };
    match rd {
        Ok((_, _, after_delimiter)) => {
            let re = choose|re: ParseResult<'a, T, E>|
                #[trigger] parser.yields(after_delimiter, min_indent, re) && sound_step(
                    after_delimiter,
                    re,
                ) && match re {
                    Ok((_, out, next)) => cur.offset < next.offset && continues_list(
                        delimiter,
                        parser,
                        next,
                        min_indent,
                        acc.push(out),
                        end,
                    ),
                    Err((progress, fail)) => {
                        &&& end matches ListEnd::ElementMissing {
                            items,
                            after_delimiter: reached,
                            progress: element_progress,
                            fail: failed,
                        }
                        &&& items@ == acc
                        &&& reached == after_delimiter
                        &&& element_progress == progress
                        &&& failed == fail
                    },
                };
            match re {
                Ok((_, out, next)) => {
                    lemma_list_ends_ahead(delimiter, parser, next, min_indent, acc.push(out), end);
                },
                _ => {},
            }
        },
        _ => {},
    }
}

/// A list of zero or more elements reports progress exactly when it consumed input.
pub proof fn sep_by0_progress_honest<'a, D, P, T, E>(p: SepBy0<D, P>) where
    D: Parser<'a, (), E>,
    P: Parser<'a, T, E>,

    ensures
        progress_honest::<Vec<T>, E, _>(p),
{
    assert forall|state: State<'a>, min_indent: u32, res: ParseResult<'a, Vec<T>, E>|
        state.wf() && #[trigger] p.yields(state, min_indent, res) && sound_step(
            state,
            res,
        ) implies honest_step(state, res) by {
        assert forall|next: State<'a>, out: T, end: ListEnd<'a, T, E>|
            next.continues(state) && #[trigger] continues_list(
                p.delimiter,
                p.parser,
                next,
                min_indent,
                seq![out],
                end,
            ) implies ends_ahead_of(end, next) by {
            lemma_list_ends_ahead(p.delimiter, p.parser, next, min_indent, seq![out], end);
        }
    }
}

/// A list that may end in a delimiter reports progress exactly when it consumed
/// input.
pub proof fn trailing_sep_by0_progress_honest<'a, D, P, T, E>(p: TrailingSepBy0<D, P>) where
    D: Parser<'a, (), E>,
    P: Parser<'a, T, E>,

    ensures
        progress_honest::<Vec<T>, E, _>(p),
{
    assert forall|state: State<'a>, min_indent: u32, res: ParseResult<'a, Vec<T>, E>|
        state.wf() && #[trigger] p.yields(state, min_indent, res) && sound_step(
            state,
            res,
        ) implies honest_step(state, res) by {
        assert forall|next: State<'a>, out: T, end: ListEnd<'a, T, E>|
            next.continues(state) && #[trigger] continues_list(
                p.delimiter,
                p.parser,
                next,
                min_indent,
                seq![out],
                end,
            ) implies ends_ahead_of(end, next) by {
            lemma_list_ends_ahead(p.delimiter, p.parser, next, min_indent, seq![out], end);
        }
    }
}

/// A list of one or more elements reports progress exactly when it consumed input.
pub proof fn sep_by1_progress_honest<'a, D, P, T, E>(p: SepBy1<D, P>) where
    D: Parser<'a, (), E>,
    P: Parser<'a, T, E>,

    ensures
        progress_honest::<Vec<T>, E, _>(p),
{
    assert forall|state: State<'a>, min_indent: u32, res: ParseResult<'a, Vec<T>, E>|
        state.wf() && #[trigger] p.yields(state, min_indent, res) && sound_step(
            state,
            res,
        ) implies honest_step(state, res) by {
        assert forall|next: State<'a>, out: T, end: ListEnd<'a, T, E>|
            next.continues(state) && #[trigger] continues_list(
                p.delimiter,
                p.parser,
                next,
                min_indent,
                seq![out],
                end,
            ) implies ends_ahead_of(end, next) by {
            lemma_list_ends_ahead(p.delimiter, p.parser, next, min_indent, seq![out], end);
        }
    }
}

/// A list that reports a missing element in its own words reports progress exactly
/// when it consumed input.
pub proof fn sep_by1_e_progress_honest<'a, D, P, V, T, E>(p: SepBy1E<D, P, V>) where
    D: Parser<'a, (), E>,
    P: Parser<'a, T, E>,
    V: Apply<(Position,), Output = E>,

    ensures
        progress_honest::<Vec<T>, E, _>(p),
{
    assert forall|state: State<'a>, min_indent: u32, res: ParseResult<'a, Vec<T>, E>|
        state.wf() && #[trigger] p.yields(state, min_indent, res) && sound_step(
            state,
            res,
        ) implies honest_step(state, res) by {
        assert forall|next: State<'a>, out: T, end: ListEnd<'a, T, E>|
            next.continues(state) && #[trigger] continues_list(
                p.delimiter,
                p.parser,
                next,
                min_indent,
                seq![out],
                end,
            ) implies ends_ahead_of(end, next) by {
            lemma_list_ends_ahead(p.delimiter, p.parser, next, min_indent, seq![out], end);
        }
    }
}

/// `res` is an outcome of trying `first` at `state` and then, where it failed
/// without progress, `second` from the same state: the outcome of `first` where that
/// is a success or a failure after progress, the outcome of `second` else.
pub open spec fn tried_in_order<'a, PA, PB, T, E>(
    first: PA,
    second: PB,
    state: State<'a>,
    min_indent: u32,
    res: ParseResult<'a, T, E>,
) -> bool where PA: Parser<'a, T, E>, PB: Parser<'a, T, E> {
    exists|r1: ParseResult<'a, T, E>|
        #[trigger] first.yields(state, min_indent, r1) && sound_step(state, r1) && if r1 is Err
            && progress_of(r1) == Progress::NoProgress {
            second.yields(state, min_indent, res) && sound_step(state, res)
        } else {
            res == r1
        }
}

/// A choice has the outcomes that trying its alternatives in order has, and no
/// others.
pub proof fn one_of_tries_alternatives_in_order<'a, PA, PB, T, E>(
    p: OneOf<PA, PB>,
    state: State<'a>,
    min_indent: u32,
    res: ParseResult<'a, T, E>,
) where PA: Parser<'a, T, E>, PB: Parser<'a, T, E>
    ensures
        p.yields(state, min_indent, res) <==> tried_in_order(
            p.first,
            p.second,
            state,
            min_indent,
            res,
        ),
{
    if p.yields(state, min_indent, res) {
        let r1 = choose|r1: ParseResult<'a, T, E>|
            #[trigger] p.first.yields(state, min_indent, r1) && sound_step(state, r1) && match r1 {
                Ok(_) => res == r1,
                Err((Progress::MadeProgress, _)) => res == r1,
                Err((Progress::NoProgress, _)) => p.second.yields(state, min_indent, res)
                    && sound_step(state, res),
            };
        assert(if r1 is Err && progress_of(r1) == Progress::NoProgress {
            p.second.yields(state, min_indent, res) && sound_step(state, res)
        } else {
            res == r1
        });
    }
    if tried_in_order(p.first, p.second, state, min_indent, res) {
        let r1 = choose|r1: ParseResult<'a, T, E>|
            #[trigger] p.first.yields(state, min_indent, r1) && sound_step(state, r1) && if r1
                is Err && progress_of(r1) == Progress::NoProgress {
                p.second.yields(state, min_indent, res) && sound_step(state, res)
            } else {
                res == r1
            };
        assert(match r1 {
            Ok(_) => res == r1,
            Err((Progress::MadeProgress, _)) => res == r1,
            Err((Progress::NoProgress, _)) => p.second.yields(state, min_indent, res)
                && sound_step(state, res),
        });
    }
}

/// A choice between parsers that have one outcome each has one outcome.
pub proof fn one_of_has_one_outcome<'a, PA, PB, T, E>(
    p: OneOf<PA, PB>,
    state: State<'a>,
    min_indent: u32,
    res_1: ParseResult<'a, T, E>,
    res_2: ParseResult<'a, T, E>,
) where PA: Parser<'a, T, E>, PB: Parser<'a, T, E>
    requires
        forall|a: ParseResult<'a, T, E>, b: ParseResult<'a, T, E>|
            #[trigger] p.first.yields(state, min_indent, a) && #[trigger] p.first.yields(
                state,
                min_indent,
                b,
            ) ==> a == b,
        forall|a: ParseResult<'a, T, E>, b: ParseResult<'a, T, E>|
            #[trigger] p.second.yields(state, min_indent, a) && #[trigger] p.second.yields(
                state,
                min_indent,
                b,
            ) ==> a == b,
        p.yields(state, min_indent, res_1),
        p.yields(state, min_indent, res_2),
    ensures
        res_1 == res_2,
{
}

/// `parser` made backtrackable.
pub open spec fn backtracking<P, E>(parser: P) -> Backtrackable<P, E> {
    Backtrackable { parser, dropped: core::marker::PhantomData }
}

/// A backtrackable parser reports no progress, on success and on failure alike, and
/// its failure carries nothing of the error that the parser inside it failed with.
pub proof fn backtrackable_reports_no_progress<'a, P, T, E>(
    p: Backtrackable<P, E>,
    state: State<'a>,
    min_indent: u32,
    res: ParseResult<'a, T, ()>,
) where P: Parser<'a, T, E>
    requires
        p.yields(state, min_indent, res),
    ensures
        progress_of(res) == Progress::NoProgress,
        res is Err ==> res == Err::<(Progress, T, State<'a>), _>((Progress::NoProgress, ())),
{
}

/// A choice whose first alternative is backtrackable goes on to the second one
/// wherever the first one fails, however much input it consumed before it failed:
/// each outcome of the second alternative is an outcome of the choice.
pub proof fn backtrackable_failure_leaves_choice_open<'a, PA, PB, T, E>(
    first: PA,
    second: PB,
    state: State<'a>,
    min_indent: u32,
    progress: Progress,
    fail: E,
    res: ParseResult<'a, T, ()>,
) where PA: Parser<'a, T, E>, PB: Parser<'a, T, ()>
    requires
        first.yields(state, min_indent, Err((progress, fail))),
        second.yields(state, min_indent, res),
        sound_step(state, res),
    ensures
        (OneOf { first: backtracking(first), second }).yields(state, min_indent, res),
{
    let wrapped = backtracking(first);
    let failure: ParseResult<'a, T, E> = Err((progress, fail));
    let seen: ParseResult<'a, T, ()> = Err((Progress::NoProgress, ()));
    assert(wrapped.parser.yields(state, min_indent, failure) && match failure {
        Ok((_, out, next)) => succeeds_with(seen, Progress::NoProgress, out, next),
        Err(_) => fails_with(seen, Progress::NoProgress, ()),
    });
    let choice = OneOf { first: wrapped, second };
    assert(choice.first.yields(state, min_indent, seen) && match seen {
        Ok(_) => res == seen,
        Err((Progress::MadeProgress, _)) => res == seen,
        Err((Progress::NoProgress, _)) => choice.second.yields(state, min_indent, res)
            && sound_step(state, res),
    });
}

/// Where the first alternative of a choice is backtrackable and can only fail, the
/// choice has the outcomes of the second alternative and no others.
pub proof fn backtrackable_failure_gives_way<'a, PA, PB, T, E>(
    first: PA,
    second: PB,
    state: State<'a>,
    min_indent: u32,
    res: ParseResult<'a, T, ()>,
) where PA: Parser<'a, T, E>, PB: Parser<'a, T, ()>
    requires
        forall|r1: ParseResult<'a, T, E>| #[trigger]
            first.yields(state, min_indent, r1) ==> r1 is Err,
        (OneOf { first: backtracking(first), second }).yields(state, min_indent, res),
    ensures
        second.yields(state, min_indent, res),
{
}

/// Where no element stands at the start, a list of zero or more elements is the
/// empty list: it succeeds without progress in the state it started from.
pub proof fn sep_by0_without_element_is_empty<'a, D, P, T, E>(
    p: SepBy0<D, P>,
    state: State<'a>,
    min_indent: u32,
    fail: E,
    res: ParseResult<'a, Vec<T>, E>,
) where D: Parser<'a, (), E>, P: Parser<'a, T, E>
    requires
        p.parser.yields(state, min_indent, Err((Progress::NoProgress, fail))),
        empty_list(res, state),
    ensures
        p.yields(state, min_indent, res),
{
    let r1: ParseResult<'a, T, E> = Err((Progress::NoProgress, fail));
    assert(p.parser.yields(state, min_indent, r1));
}

/// Where no element stands at the start, a list that may end in a delimiter is the
/// empty list: it succeeds without progress in the state it started from.
pub proof fn trailing_sep_by0_without_element_is_empty<'a, D, P, T, E>(
    p: TrailingSepBy0<D, P>,
    state: State<'a>,
    min_indent: u32,
    fail: E,
    res: ParseResult<'a, Vec<T>, E>,
) where D: Parser<'a, (), E>, P: Parser<'a, T, E>
    requires
        p.parser.yields(state, min_indent, Err((Progress::NoProgress, fail))),
        empty_list(res, state),
    ensures
        p.yields(state, min_indent, res),
{
    let r1: ParseResult<'a, T, E> = Err((Progress::NoProgress, fail));
    assert(p.parser.yields(state, min_indent, r1));
}

/// Where the element parser can only fail at the start, a list of one or more
/// elements can only fail, and it fails as the element parser does.
pub proof fn sep_by1_without_element_fails<'a, D, P, T, E>(
    p: SepBy1<D, P>,
    state: State<'a>,
    min_indent: u32,
    res: ParseResult<'a, Vec<T>, E>,
) where D: Parser<'a, (), E>, P: Parser<'a, T, E>
    requires
        forall|r1: ParseResult<'a, T, E>| #[trigger]
            p.parser.yields(state, min_indent, r1) ==> r1 is Err,
        p.yields(state, min_indent, res),
    ensures
        res matches Err((progress, fail)) && p.parser.yields(
            state,
            min_indent,
            Err((progress, fail)),
        ),
{
}

/// Where the element parser can only fail at the start, a list that reports a
/// missing element in its own words can only fail.
pub proof fn sep_by1_e_without_element_fails<'a, D, P, V, T, E>(
    p: SepBy1E<D, P, V>,
    state: State<'a>,
    min_indent: u32,
    res: ParseResult<'a, Vec<T>, E>,
) where D: Parser<'a, (), E>, P: Parser<'a, T, E>, V: Apply<(Position,), Output = E>
    requires
        forall|r1: ParseResult<'a, T, E>| #[trigger]
            p.parser.yields(state, min_indent, r1) ==> r1 is Err,
        p.yields(state, min_indent, res),
    ensures
        res is Err,
{
}

/// A delimiter behind the last element ends a list that may end in a delimiter: the
/// list succeeds behind that delimiter, with the elements before it.
pub proof fn trailing_delimiter_ends_list<'a, D, P, T, E>(
    p: TrailingSepBy0<D, P>,
    state: State<'a>,
    min_indent: u32,
    element: ParseResult<'a, T, E>,
    delimited: ParseResult<'a, (), E>,
    missing: ParseResult<'a, T, E>,
    res: ParseResult<'a, Vec<T>, E>,
) where D: Parser<'a, (), E>, P: Parser<'a, T, E>
    requires
        p.parser.yields(state, min_indent, element),
        sound_step(state, element),
        element matches Ok((_, _, next)) && state.offset < next.offset && p.delimiter.yields(
            next,
            min_indent,
            delimited,
        ) && sound_step(next, delimited),
        delimited matches Ok((_, _, after_delimiter)) && p.parser.yields(
            after_delimiter,
            min_indent,
            missing,
        ),
        missing is Err,
        list_of(res, seq![element->Ok_0.1], delimited->Ok_0.2),
    ensures
        p.yields(state, min_indent, res),
{
    let next = element->Ok_0.2;
    let after_delimiter = delimited->Ok_0.2;
    let end: ListEnd<'a, T, E> = ListEnd::ElementMissing {
        items: res->Ok_0.1,
        after_delimiter,
        progress: missing->Err_0.0,
        fail: missing->Err_0.1,
    };
    assert(continues_list(p.delimiter, p.parser, next, min_indent, seq![element->Ok_0.1], end));
    assert(trailing_list(p.delimiter, p.parser, next, min_indent, element->Ok_0.1, res));
}

/// Where the element parser can only fail without progress at the start, a list of
/// zero or more elements has no outcome but the empty list.
pub proof fn sep_by0_without_element_is_only_empty<'a, D, P, T, E>(
    p: SepBy0<D, P>,
    state: State<'a>,
    min_indent: u32,
    res: ParseResult<'a, Vec<T>, E>,
) where D: Parser<'a, (), E>, P: Parser<'a, T, E>
    requires
        forall|r1: ParseResult<'a, T, E>| #[trigger]
            p.parser.yields(state, min_indent, r1) ==> r1 is Err && progress_of(r1)
                == Progress::NoProgress,
        p.yields(state, min_indent, res),
    ensures
        empty_list(res, state),
{
}

/// Where the element parser can only fail without progress at the start, a list
/// that may end in a delimiter has no outcome but the empty list.
pub proof fn trailing_sep_by0_without_element_is_only_empty<'a, D, P, T, E>(
    p: TrailingSepBy0<D, P>,
    state: State<'a>,
    min_indent: u32,
    res: ParseResult<'a, Vec<T>, E>,
) where D: Parser<'a, (), E>, P: Parser<'a, T, E>
    requires
        forall|r1: ParseResult<'a, T, E>| #[trigger]
            p.parser.yields(state, min_indent, r1) ==> r1 is Err && progress_of(r1)
                == Progress::NoProgress,
        p.yields(state, min_indent, res),
    ensures
        empty_list(res, state),
{
}

/// Where the element parser can only fail without progress at the start, a list
/// that reports a missing element in its own words has no outcome but the failure,
/// without progress, with the error that its function makes of the start.
pub proof fn sep_by1_e_without_element_says_so<'a, D, P, V, T, E>(
    p: SepBy1E<D, P, V>,
    state: State<'a>,
    min_indent: u32,
    res: ParseResult<'a, Vec<T>, E>,
) where D: Parser<'a, (), E>, P: Parser<'a, T, E>, V: Apply<(Position,), Output = E>
    requires
        forall|r1: ParseResult<'a, T, E>| #[trigger]
            p.parser.yields(state, min_indent, r1) ==> r1 is Err && progress_of(r1)
                == Progress::NoProgress,
        p.yields(state, min_indent, res),
    ensures
        element_expected(p.to_element_error, state, res),
{
}

/// Where the one outcome of the element parser is an element, the one outcome of the
/// delimiter behind it is a success, and the element parser can only fail behind
/// that, a list that may end in a delimiter has no outcome but the list of that one
/// element, ending behind the delimiter.
pub proof fn trailing_delimiter_only_ends_list<'a, D, P, T, E>(
    p: TrailingSepBy0<D, P>,
    state: State<'a>,
    min_indent: u32,
    out: T,
    next: State<'a>,
    after_delimiter: State<'a>,
    res: ParseResult<'a, Vec<T>, E>,
) where D: Parser<'a, (), E>, P: Parser<'a, T, E>
    requires
        forall|r1: ParseResult<'a, T, E>| #[trigger]
            p.parser.yields(state, min_indent, r1) ==> (r1 matches Ok((_, first, reached))
                && first == out && reached == next),
        forall|rd: ParseResult<'a, (), E>| #[trigger]
            p.delimiter.yields(next, min_indent, rd) ==> (rd matches Ok((_, _, reached))
                && reached == after_delimiter),
        forall|re: ParseResult<'a, T, E>| #[trigger]
            p.parser.yields(after_delimiter, min_indent, re) ==> re is Err,
        p.yields(state, min_indent, res),
    ensures
        list_of(res, seq![out], after_delimiter),
{
    assert forall|end: ListEnd<'a, T, E>| #[trigger]
        continues_list(p.delimiter, p.parser, next, min_indent, seq![out], end) implies (end
        matches ListEnd::ElementMissing { items, after_delimiter: reached, .. } && items@
        == seq![out] && reached == after_delimiter) by {}
}

/// A byte matcher gated by the indentation fails, without progress and without
/// regard to the bytes, wherever the cursor stands left of the minimum indentation.
pub proof fn byte_indent_rejects_left_of_threshold<'a, F: Apply<(Position,), Output = E>, E>(
    p: ByteIndent<F>,
    state: State<'a>,
    min_indent: u32,
    res: ParseResult<'a, (), E>,
)
    requires
        state.column_spec() < min_indent,
        p.yields(state, min_indent, res),
    ensures
        mismatched(p.to_error, state, res),
        progress_of(res) == Progress::NoProgress,
        res is Err,
{
}

/// A byte matcher gated by the indentation matches its byte wherever the cursor
/// stands at the minimum indentation or right of it.
pub proof fn byte_indent_accepts_from_threshold<'a, F: Apply<(Position,), Output = E>, E>(
    p: ByteIndent<F>,
    state: State<'a>,
    min_indent: u32,
    res: ParseResult<'a, (), E>,
)
    requires
        state.wf(),
        min_indent <= state.column_spec(),
        state.remaining().len() > 0,
        state.remaining()[0] == p.byte_to_match,
        p.yields(state, min_indent, res),
    ensures
        res matches Ok((progress, _, next)) && progress == Progress::MadeProgress && next.offset
            == state.offset + 1,
{
    assert(seq![p.byte_to_match] =~= state.remaining().subrange(0, 1));
}

/// A sequence has made progress as soon as one of its parsers has: where the second
/// one fails after the first one has succeeded, the sequence fails with the error of
/// the second and the progress of both, so with progress if the first one made some.
pub proof fn and_failure_keeps_progress_of_first<'a, PA, PB, A, B, E>(
    p: And<PA, PB>,
    state: State<'a>,
    min_indent: u32,
    progress_1: Progress,
    out: A,
    mid: State<'a>,
    progress_2: Progress,
    fail: E,
) where PA: Parser<'a, A, E>, PB: Parser<'a, B, E>
    requires
        p.first.yields(state, min_indent, Ok((progress_1, out, mid))),
        mid.continues(state),
        p.second.yields(mid, min_indent, Err((progress_2, fail))),
    ensures
        p.yields(state, min_indent, Err((progress_1.or_spec(progress_2), fail))),
        progress_1 == Progress::MadeProgress ==> progress_1.or_spec(progress_2)
            == Progress::MadeProgress,
{
    let r1: ParseResult<'a, A, E> = Ok((progress_1, out, mid));
    let r2: ParseResult<'a, B, E> = Err((progress_2, fail));
    let res: ParseResult<'a, (A, B), E> = Err((progress_1.or_spec(progress_2), fail));
    assert(p.second.yields(mid, min_indent, r2) && sound_step(mid, r2) && match r2 {
        Ok((p2, out2, next)) => succeeds_with(res, progress_1.or_spec(p2), (out, out2), next),
        Err((p2, fail)) => fails_with(res, progress_1.or_spec(p2), fail),
    });
    assert(p.first.yields(state, min_indent, r1) && sound_step(state, r1));
    assert(in_sequence(p.first, p.second, state, min_indent, min_indent, res));
}

/// A traced parser reports its progress honestly if the parser does.
pub proof fn traced_progress_honest<'a, O, E, P, R>(p: Traced<P, R>) where
    O: core::fmt::Debug,
    E: core::fmt::Debug,
    P: Parser<'a, O, E>,
    R: Tracer,

    requires
        progress_honest(p.parser),
    ensures
        progress_honest::<O, E, _>(p),
{
}

/// Every success of a matcher of a single byte consumes input.
pub proof fn byte_consumes<'a, F: Apply<(Position,), Output = E>, E>(p: Byte<F>, min_indent: u32)
    ensures
        consumes_on_success::<(), E, _>(p, min_indent),
{
}

/// Every success of a matcher of a single indented byte consumes input.
pub proof fn byte_indent_consumes<'a, F: Apply<(Position,), Output = E>, E>(p: ByteIndent<F>, min_indent: u32)
    ensures
        consumes_on_success::<(), E, _>(p, min_indent),
{
}

/// Every success of a matcher of two bytes consumes input.
pub proof fn two_bytes_consumes<'a, F: Apply<(Position,), Output = E>, E>(p: TwoBytes<F>, min_indent: u32)
    ensures
        consumes_on_success::<(), E, _>(p, min_indent),
{
}

/// Every success of a matcher of three bytes consumes input.
pub proof fn three_bytes_consumes<'a, F: Apply<(Position,), Output = E>, E>(p: ThreeBytes<F>, min_indent: u32)
    ensures
        consumes_on_success::<(), E, _>(p, min_indent),
{
}

/// Every success of a matcher of a word that is not empty consumes input.
pub proof fn word_consumes<'a, F: Apply<(Position,), Output = E>, E>(p: Word<F>, min_indent: u32)
    requires
        p.word.spec_bytes().len() > 0,
    ensures
        consumes_on_success::<(), E, _>(p, min_indent),
{
}

/// Every success of a sequence consumes input if every success of one of its
/// parsers does.
pub proof fn and_consumes<'a, PA, PB, A, B, E>(p: And<PA, PB>, min_indent: u32) where
    PA: Parser<'a, A, E>,
    PB: Parser<'a, B, E>,

    requires
        consumes_on_success(p.first, min_indent) || consumes_on_success(p.second, min_indent),
    ensures
        consumes_on_success::<(A, B), E, _>(p, min_indent),
{
}

/// Every success of a sequence that keeps its second output consumes input if every
/// success of one of its parsers does.
pub proof fn skip_first_consumes<'a, PA, PB, A, B, E>(p: SkipFirst<PA, PB, A>, min_indent: u32) where
    PA: Parser<'a, A, E>,
    PB: Parser<'a, B, E>,

    requires
        consumes_on_success(p.first, min_indent) || consumes_on_success(p.second, min_indent),
    ensures
        consumes_on_success::<B, E, _>(p, min_indent),
{
}

/// Every success of a sequence that keeps its first output consumes input if every
/// success of one of its parsers does.
pub proof fn skip_second_consumes<'a, PA, PB, A, B, E>(p: SkipSecond<PA, PB, B>, min_indent: u32) where
    PA: Parser<'a, A, E>,
    PB: Parser<'a, B, E>,

    requires
        consumes_on_success(p.first, min_indent) || consumes_on_success(p.second, min_indent),
    ensures
        consumes_on_success::<A, E, _>(p, min_indent),
{
}

/// Every success of a choice consumes input if every success of both alternatives
/// does.
pub proof fn one_of_consumes<'a, PA, PB, T, E>(p: OneOf<PA, PB>, min_indent: u32) where
    PA: Parser<'a, T, E>,
    PB: Parser<'a, T, E>,

    requires
        consumes_on_success(p.first, min_indent),
        consumes_on_success(p.second, min_indent),
    ensures
        consumes_on_success::<T, E, _>(p, min_indent),
{
}

/// Every success of a parser with its output transformed consumes input if every
/// success of the parser does.
pub proof fn map_consumes<'a, P, F, Before, After, E>(p: Mapped<P, F, Before>, min_indent: u32) where
    P: Parser<'a, Before, E>,
    F: Apply<(Before,), Output = After>,

    requires
        consumes_on_success(p.parser, min_indent),
    ensures
        consumes_on_success::<After, E, _>(p, min_indent),
{
}

/// Every success of a parser with its output transformed in the arena consumes
/// input if every success of the parser does.
pub proof fn map_with_arena_consumes<'a, P, F, Before, After, E>(
    p: MappedWithArena<P, F, Before>,
    min_indent: u32,
) where P: Parser<'a, Before, E>, F: Apply<(&'a bumpalo::Bump, Before), Output = After>
    requires
        consumes_on_success(p.parser, min_indent),
    ensures
        consumes_on_success::<After, E, _>(p, min_indent),
{
}

/// Every success of a parser with its error transformed consumes input if every
/// success of the parser does.
pub proof fn specialize_err_consumes<'a, F, P, T, X, Y>(
    p: SpecializeErr<F, P, X>,
    min_indent: u32,
) where F: Apply<(X, Position), Output = Y>, P: Parser<'a, T, X>
    requires
        consumes_on_success(p.parser, min_indent),
    ensures
        consumes_on_success::<T, Y, _>(p, min_indent),
{
}

/// Every success of a parser with its error kept in the arena consumes input if
/// every success of the parser does.
pub proof fn specialize_err_ref_consumes<'a, F, P, T, X, Y>(
    p: SpecializeErrRef<F, P, X>,
    min_indent: u32,
) where F: Apply<(&'a X, Position), Output = Y>, P: Parser<'a, T, X>, X: 'a
    requires
        consumes_on_success(p.parser, min_indent),
    ensures
        consumes_on_success::<T, Y, _>(p, min_indent),
{
}

/// Every success of a parser with its output moved into the arena consumes input
/// if every success of the parser does.
pub proof fn allocated_consumes<'a, P, Val, E>(p: Allocated<P>, min_indent: u32) where
    P: Parser<'a, Val, E>,
    Val: 'a,

    requires
        consumes_on_success(p.parser, min_indent),
    ensures
        consumes_on_success::<&'a Val, E, _>(p, min_indent),
{
}

/// Every success of a parser with the span of its output consumes input if every
/// success of the parser does.
pub proof fn loc_consumes<'a, P, Val, E>(p: Located<P>, min_indent: u32) where
    P: Parser<'a, Val, E>,

    requires
        consumes_on_success(p.parser, min_indent),
    ensures
        consumes_on_success::<Loc<Val>, E, _>(p, min_indent),
{
}

/// Every success of a choice between parsers with different outputs consumes input
/// if every success of both alternatives does.
pub proof fn either_consumes<'a, PA, PB, A, B, E>(p: EitherOf<PA, PB>, min_indent: u32) where
    PA: Parser<'a, A, E>,
    PB: Parser<'a, B, E>,

    requires
        consumes_on_success(p.first, min_indent),
        consumes_on_success(p.second, min_indent),
    ensures
        consumes_on_success::<crate::parser::Either<A, B>, E, _>(p, min_indent),
{
}

/// Every success of a repetition of at least one element consumes input.
pub proof fn one_or_more_consumes<'a, P, F, T, E>(p: OneOrMore<P, F>, min_indent: u32) where
    P: Parser<'a, T, E>,
    F: Apply<(Position,), Output = E>,

    ensures
        consumes_on_success::<Vec<T>, E, _>(p, min_indent),
{
    assert forall|state: State<'a>, res: ParseResult<'a, Vec<T>, E>|
        state.wf() && #[trigger] p.yields(state, min_indent, res) && sound_step(
            state,
            res,
        ) implies (res matches Ok((_, _, next)) ==> state.offset < next.offset) by {
        assert forall|next: State<'a>, out: T|
            state.offset < next.offset && next.continues(state) && #[trigger] repeats(
                p.parser,
                state,
                next,
                min_indent,
                seq![out],
                res,
            ) implies (res matches Ok((_, _, end)) ==> state.offset < end.offset) by {
            lemma_repeats_ends_ahead(p.parser, state, next, min_indent, seq![out], res);
        }
    }
}

/// Every success of a list of one or more elements consumes input.
pub proof fn sep_by1_consumes<'a, D, P, T, E>(p: SepBy1<D, P>, min_indent: u32) where
    D: Parser<'a, (), E>,
    P: Parser<'a, T, E>,

    ensures
        consumes_on_success::<Vec<T>, E, _>(p, min_indent),
{
    assert forall|state: State<'a>, res: ParseResult<'a, Vec<T>, E>|
        state.wf() && #[trigger] p.yields(state, min_indent, res) && sound_step(
            state,
            res,
        ) implies (res matches Ok((_, _, next)) ==> state.offset < next.offset) by {
        assert forall|next: State<'a>, out: T, end: ListEnd<'a, T, E>|
            next.continues(state) && #[trigger] continues_list(
                p.delimiter,
                p.parser,
                next,
                min_indent,
                seq![out],
                end,
            ) implies ends_ahead_of(end, next) by {
            lemma_list_ends_ahead(p.delimiter, p.parser, next, min_indent, seq![out], end);
        }
    }
}

/// Every success of a parser freed from the indentation around it consumes input if
/// every success of the parser under no indentation does.
pub proof fn reset_min_indent_consumes<'a, P, T, X>(p: ResetMinIndent<P>, min_indent: u32) where
    P: Parser<'a, T, X>,

    requires
        consumes_on_success(p.parser, 0),
    ensures
        consumes_on_success::<T, X, _>(p, min_indent),
{
}

/// Every success of a parser under a fixed minimum indentation consumes input if
/// every success of the parser under that indentation does.
pub proof fn set_min_indent_consumes<'a, P, T, X>(p: SetMinIndent<P>, min_indent: u32) where
    P: Parser<'a, T, X>,

    requires
        consumes_on_success(p.parser, p.min_indent),
    ensures
        consumes_on_success::<T, X, _>(p, min_indent),
{
}

/// Every success of a parser indented one column more consumes input if every
/// success of the parser under that indentation does.
pub proof fn increment_min_indent_consumes<'a, P, T, X>(
    p: IncrementMinIndent<P>,
    min_indent: u32,
) where P: Parser<'a, T, X>
    requires
        consumes_on_success(p.parser, (min_indent + 1) as u32),
    ensures
        consumes_on_success::<T, X, _>(p, min_indent),
{
}

/// Every success of a parser that reports its progress honestly and never succeeds
/// without progress consumes input.
pub proof fn honest_progress_consumes<'a, P, T, E>(p: P, min_indent: u32) where
    P: Parser<'a, T, E>,

    requires
        progress_honest(p),
        forall|state: State<'a>, res: ParseResult<'a, T, E>| #[trigger]
            p.yields(state, min_indent, res) && res is Ok ==> progress_of(res)
                == Progress::MadeProgress,
    ensures
        consumes_on_success(p, min_indent),
{
}

} // verus!
