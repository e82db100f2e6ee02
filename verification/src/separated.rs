//! Lists of elements with a delimiter between them.
//!
//! After the first element the list goes on delimiter by delimiter. A delimiter that
//! fails without progress ends the list before it; one that fails after progress
//! fails the list. An element follows each delimiter: what a missing element means is
//! what tells the four lists apart. The output of a delimiter is dropped.
//!
//! A list comes to an end only if every element consumes input. That is asked of the
//! element parser before the list is run.
//!
//! The elements are handed out in a `Vec` of the standard library, a collection whose
//! contents a contract can speak of. It is the caller's to keep, to change, or to move
//! into the arena.
use vstd::prelude::*;
use bumpalo::Bump;
use crate::apply::{total, Apply};
use crate::parser::{
    consumes_on_success,
    fails_with,
    sound_step,
    ParseResult,
    Parser,
    Progress,
};
use crate::region::Position;
use crate::state::State;

verus! {

/// How the part of a list behind its first element ended.
pub enum ListEnd<'a, T, E> {
    /// A delimiter failed without progress, in state `end`: the list is `items`.
    Complete { items: Vec<T>, end: State<'a> },
    /// A delimiter failed after progress.
    DelimiterFailed { fail: E },
    /// A delimiter was consumed, up to `after_delimiter`, and the element parser
    /// failed there.
    ElementMissing { items: Vec<T>, after_delimiter: State<'a>, progress: Progress, fail: E },
}

/// `end` is a way in which a list may end that has collected `acc` up to `cur` and
/// goes on there with a delimiter.
///
/// Where the delimiter fails, the list ends: complete where it failed without
/// progress, with the failure of the delimiter else. Where it succeeds, an element is
/// tried behind it. Where that succeeds, the element joins what was collected and
/// the list goes on behind it; where it fails, the list ends with an element missing.
pub open spec fn continues_list<'a, T, E, D: Parser<'a, (), E>, P: Parser<'a, T, E>>(
    delimiter: D,
    parser: P,
    cur: State<'a>,
    min_indent: u32,
    acc: Seq<T>,
    end: ListEnd<'a, T, E>,
) -> bool
    decreases cur.original_bytes@.len() - cur.offset,
{
    exists|rd: ParseResult<'a, (), E>|
        #[trigger] delimiter.yields(cur, min_indent, rd) && sound_step(cur, rd) && match rd {
            Err((Progress::NoProgress, _)) => {
                &&& end matches ListEnd::Complete { items, end: last }
                &&& items@ == acc
                &&& last == cur
            },
            Err((Progress::MadeProgress, fail)) => {
                &&& end matches ListEnd::DelimiterFailed { fail: failed }
                &&& failed == fail
            },
            Ok((_, _, after_delimiter)) => exists|re: ParseResult<'a, T, E>|
                #[trigger] parser.yields(after_delimiter, min_indent, re) && sound_step(
                    after_delimiter,
                    re,
                ) && match re {
                    Ok((_, out, next)) => cur.offset < next.offset && continues_list(
                        delimiter,
                        parser,
                        next,
                        min_indent,
                        acc.push(out),
                        end,
                    ),
                    Err((progress, fail)) => {
                        &&& end matches ListEnd::ElementMissing {
                            items,
                            after_delimiter: reached,
                            progress: element_progress,
                            fail: failed,
                        }
                        &&& items@ == acc
                        &&& reached == after_delimiter
                        &&& element_progress == progress
                        &&& failed == fail
                    },
                },
        }
}

/// The state in which the list ended, where it did not end in a failure of the
/// delimiter, continues `cur`.
pub open spec fn ends_ahead_of<'a, T, E>(end: ListEnd<'a, T, E>, cur: State<'a>) -> bool {
    match end {
        ListEnd::Complete { end, .. } => end.continues(cur),
        ListEnd::DelimiterFailed { .. } => true,
        ListEnd::ElementMissing { after_delimiter, .. } => after_delimiter.continues(cur),
    }
}

/// Parses the part of a list behind its first element, `first`, which ended in
/// `after_first`.
fn rest_of_list<'a, D, P, T, E>(
    delimiter: &D,
    parser: &P,
    arena: &'a Bump,
    first: T,
    after_first: State<'a>,
    min_indent: u32,
) -> (end: ListEnd<'a, T, E>) where D: Parser<'a, (), E>, P: Parser<'a, T, E>
    requires
        delimiter.wf(min_indent),
        parser.wf(min_indent),
        consumes_on_success(*parser, min_indent),
        after_first.wf(),
    ensures
        continues_list(*delimiter, *parser, after_first, min_indent, seq![first], end),
        ends_ahead_of(end, after_first),
{
    let mut state = after_first.clone();
    let mut buf: Vec<T> = Vec::with_capacity(1);
    buf.push(first);
    assert(buf@ =~= seq![first]);
    loop
        invariant
            delimiter.wf(min_indent),
            parser.wf(min_indent),
            consumes_on_success(*parser, min_indent),
            state.continues(after_first),
            forall|end: ListEnd<'a, T, E>| #[trigger]
                continues_list(*delimiter, *parser, state, min_indent, buf@, end)
                    ==> continues_list(
                    *delimiter,
                    *parser,
                    after_first,
                    min_indent,
                    seq![first],
                    end,
                ),
        decreases state.original_bytes@.len() - state.offset,
    {
        let old_state = state.clone();
        let delimited = delimiter.parse(arena, state, min_indent);
        let ghost rd = delimited;
        match delimited {
            Ok((_, _, after_delimiter)) => {
                // An element has to follow the delimiter.
                match parser.parse(arena, after_delimiter.clone(), min_indent) {
                    Ok((_, next_output, next_state)) => {
                        assert forall|end: ListEnd<'a, T, E>| #[trigger]
                            continues_list(
                                *delimiter,
                                *parser,
                                next_state,
                                min_indent,
                                buf@.push(next_output),
                                end,
                            ) implies continues_list(
                            *delimiter,
                            *parser,
                            old_state,
                            min_indent,
                            buf@,
                            end,
                        ) by {
                            assert(delimiter.yields(old_state, min_indent, rd));
                        }
                        state = next_state;
                        buf.push(next_output);
                    },
                    Err((progress, fail)) => {
                        let end = ListEnd::ElementMissing {
                            items: buf,
                            after_delimiter,
                            progress,
                            fail,
                        };
                        assert(continues_list(
                            *delimiter,
                            *parser,
                            old_state,
                            min_indent,
                            buf@,
                            end,
                        )) by {
                            assert(delimiter.yields(old_state, min_indent, rd));
                        }
                        return end;
                    },
                }
            },
            Err((Progress::MadeProgress, fail)) => {
                // The delimiter began and broke off.
                let end = ListEnd::DelimiterFailed { fail };
                assert(continues_list(*delimiter, *parser, old_state, min_indent, buf@, end));
                return end;
            },
            Err((Progress::NoProgress, _)) => {
                let end = ListEnd::Complete { items: buf, end: old_state };
                assert(continues_list(*delimiter, *parser, old_state, min_indent, buf@, end));
                return end;
            },
        }
    }
}

/// `res` is the success of a list with these items, after progress, in state `end`.
pub open spec fn list_of<'a, T, E>(res: ParseResult<'a, Vec<T>, E>, items: Seq<T>, end: State<'a>) -> bool {
    &&& res matches Ok((progress, list, next))
    &&& progress == Progress::MadeProgress
    &&& list@ == items
    &&& next == end
}

/// `res` is the success of the empty list at `state`: no progress, and the state as
/// it was.
pub open spec fn empty_list<'a, T, E>(res: ParseResult<'a, Vec<T>, E>, state: State<'a>) -> bool {
    &&& res matches Ok((progress, list, next))
    &&& progress == Progress::NoProgress
    &&& list@ == Seq::<T>::empty()
    &&& next == state
}

/// `res` is the outcome of a list that ended in `end` behind its first element and
/// takes a missing element for an error.
pub open spec fn closes_strict<'a, T, E>(
    end: ListEnd<'a, T, E>,
    res: ParseResult<'a, Vec<T>, E>,
) -> bool {
    match end {
        ListEnd::Complete { items, end } => list_of(res, items@, end),
        ListEnd::DelimiterFailed { fail } => fails_with(res, Progress::MadeProgress, fail),
        ListEnd::ElementMissing { fail, .. } => fails_with(res, Progress::MadeProgress, fail),
    }
}

/// `res` is an outcome of a list whose first element `first` ended in `next`, and
/// that takes a missing element for an error.
pub open spec fn strict_list<'a, T, E, D: Parser<'a, (), E>, P: Parser<'a, T, E>>(
    delimiter: D,
    parser: P,
    next: State<'a>,
    min_indent: u32,
    first: T,
    res: ParseResult<'a, Vec<T>, E>,
) -> bool {
    exists|end: ListEnd<'a, T, E>| #[trigger]
        continues_list(delimiter, parser, next, min_indent, seq![first], end) && closes_strict(
            end,
            res,
        )
}

/// `res` is the outcome of a list that ended in `end` behind its first element and
/// takes a missing element for the sign of a trailing delimiter: the list ends behind
/// that delimiter.
pub open spec fn closes_trailing<'a, T, E>(
    end: ListEnd<'a, T, E>,
    res: ParseResult<'a, Vec<T>, E>,
) -> bool {
    match end {
        ListEnd::Complete { items, end } => list_of(res, items@, end),
        ListEnd::DelimiterFailed { fail } => fails_with(res, Progress::MadeProgress, fail),
        ListEnd::ElementMissing { items, after_delimiter, .. } => list_of(
            res,
            items@,
            after_delimiter,
        ),
    }
}

/// `res` is an outcome of a list whose first element `first` ended in `next`, and
/// that may end in a delimiter.
pub open spec fn trailing_list<'a, T, E, D: Parser<'a, (), E>, P: Parser<'a, T, E>>(
    delimiter: D,
    parser: P,
    next: State<'a>,
    min_indent: u32,
    first: T,
    res: ParseResult<'a, Vec<T>, E>,
) -> bool {
    exists|end: ListEnd<'a, T, E>| #[trigger]
        continues_list(delimiter, parser, next, min_indent, seq![first], end) && closes_trailing(
            end,
            res,
        )
}

/// `res` is the failure, without progress, with an error that `to_element_error`
/// makes of the cursor's position in `state`.
pub open spec fn element_expected<'a, T, E, V: Apply<(Position,), Output = E>>(
    to_element_error: V,
    state: State<'a>,
    res: ParseResult<'a, Vec<T>, E>,
) -> bool {
    exists|e: E|
        #[trigger] to_element_error.maps((state.pos_spec(),), e) && fails_with(
            res,
            Progress::NoProgress,
            e,
        )
}

/// `res` is the outcome of a list that ended in `end` behind its first element and
/// reports an element that is missing altogether in its own words: where the element
/// parser failed without progress behind a delimiter, the error is what
/// `to_element_error` makes of the position behind that delimiter.
pub open spec fn closes_remapped<'a, T, E, V: Apply<(Position,), Output = E>>(
    to_element_error: V,
    end: ListEnd<'a, T, E>,
    res: ParseResult<'a, Vec<T>, E>,
) -> bool {
    match end {
        ListEnd::Complete { items, end } => list_of(res, items@, end),
        ListEnd::DelimiterFailed { fail } => fails_with(res, Progress::MadeProgress, fail),
        ListEnd::ElementMissing { after_delimiter, progress, fail, .. } => match progress {
            Progress::MadeProgress => fails_with(res, Progress::MadeProgress, fail),
            Progress::NoProgress => element_expected(to_element_error, after_delimiter, res),
        },
    }
}

/// `res` is an outcome of a list whose first element `first` ended in `next`, and
/// that reports a missing element in its own words.
pub open spec fn remapped_list<
    'a,
    T,
    E,
    D: Parser<'a, (), E>,
    P: Parser<'a, T, E>,
    V: Apply<(Position,), Output = E>,
>(
    delimiter: D,
    parser: P,
    to_element_error: V,
    next: State<'a>,
    min_indent: u32,
    first: T,
    res: ParseResult<'a, Vec<T>, E>,
) -> bool {
    exists|end: ListEnd<'a, T, E>| #[trigger]
        continues_list(delimiter, parser, next, min_indent, seq![first], end) && closes_remapped(
            to_element_error,
            end,
            res,
        )
}

/// A list of zero or more elements. See [`sep_by0`].
pub struct SepBy0<D, P> {
    pub delimiter: D,
    pub parser: P,
}

impl<'a, D, P, T, E> Parser<'a, Vec<T>, E> for SepBy0<D, P> where
    D: Parser<'a, (), E>,
    P: Parser<'a, T, E>,
 {
    /// Both parsers can be run, and each success of the element parser consumes
    /// input.
    open spec fn wf(&self, min_indent: u32) -> bool {
        &&& self.delimiter.wf(min_indent)
        &&& self.parser.wf(min_indent)
        &&& consumes_on_success(self.parser, min_indent)
    }

    open spec fn yields(
        &self,
        state: State<'a>,
        min_indent: u32,
        res: ParseResult<'a, Vec<T>, E>,
    ) -> bool {
        exists|r1: ParseResult<'a, T, E>|
            #[trigger] self.parser.yields(state, min_indent, r1) && sound_step(state, r1)
                && match r1 {
                Ok((_, out, next)) => state.offset < next.offset && strict_list(
                    self.delimiter,
                    self.parser,
                    next,
                    min_indent,
                    out,
                    res,
                ),
                Err((Progress::MadeProgress, fail)) => fails_with(
                    res,
                    Progress::MadeProgress,
                    fail,
                ),
                Err((Progress::NoProgress, _)) => empty_list(res, state),
            }
    }

    fn parse(&self, arena: &'a Bump, state: State<'a>, min_indent: u32) -> (res: ParseResult<
        'a,
        Vec<T>,
        E,
    >) {
        let original_state = state.clone();
        match self.parser.parse(arena, state, min_indent) {
            Ok((_, first_output, next_state)) => {
                let end = rest_of_list(
                    &self.delimiter,
                    &self.parser,
                    arena,
                    first_output,
                    next_state.clone(),
                    min_indent,
                );
                let res = match end {
                    ListEnd::Complete { items, end } => Ok((Progress::MadeProgress, items, end)),
                    ListEnd::DelimiterFailed { fail } => Err((Progress::MadeProgress, fail)),
                    // A delimiter was consumed: the missing element is an error.
                    ListEnd::ElementMissing { fail, .. } => Err((Progress::MadeProgress, fail)),
                };
                assert(strict_list(
                    self.delimiter,
                    self.parser,
                    next_state,
                    min_indent,
                    first_output,
                    res,
                ));
                res
            },
            Err((Progress::MadeProgress, fail)) => Err((Progress::MadeProgress, fail)),
            Err((Progress::NoProgress, _)) => Ok((Progress::NoProgress, Vec::new(), original_state)),
        }
    }
}

/// Parses zero or more elements with `delimiter` between them. Where the first
/// element fails without progress, the list is empty: it succeeds without progress in
/// the state it started from. Behind a delimiter an element must follow: where none
/// does, the list fails, after progress, with the failure of the element.
pub fn sep_by0<'a, D, P, T, E>(delimiter: D, parser: P) -> (p: SepBy0<D, P>) where
    D: Parser<'a, (), E>,
    P: Parser<'a, T, E>,

    ensures
        p.delimiter == delimiter,
        p.parser == parser,
{
    SepBy0 { delimiter, parser }
}

/// A list of zero or more elements that may end in a delimiter. See
/// [`trailing_sep_by0`].
pub struct TrailingSepBy0<D, P> {
    pub delimiter: D,
    pub parser: P,
}

impl<'a, D, P, T, E> Parser<'a, Vec<T>, E> for TrailingSepBy0<D, P> where
    D: Parser<'a, (), E>,
    P: Parser<'a, T, E>,
 {
    /// Both parsers can be run, and each success of the element parser consumes
    /// input.
    open spec fn wf(&self, min_indent: u32) -> bool {
        &&& self.delimiter.wf(min_indent)
        &&& self.parser.wf(min_indent)
        &&& consumes_on_success(self.parser, min_indent)
    }

    open spec fn yields(
        &self,
        state: State<'a>,
        min_indent: u32,
        res: ParseResult<'a, Vec<T>, E>,
    ) -> bool {
        exists|r1: ParseResult<'a, T, E>|
            #[trigger] self.parser.yields(state, min_indent, r1) && sound_step(state, r1)
                && match r1 {
                Ok((_, out, next)) => state.offset < next.offset && trailing_list(
                    self.delimiter,
                    self.parser,
                    next,
                    min_indent,
                    out,
                    res,
                ),
                Err((Progress::MadeProgress, fail)) => fails_with(
                    res,
                    Progress::MadeProgress,
                    fail,
                ),
                Err((Progress::NoProgress, _)) => empty_list(res, state),
            }
    }

    fn parse(&self, arena: &'a Bump, state: State<'a>, min_indent: u32) -> (res: ParseResult<
        'a,
        Vec<T>,
        E,
    >) {
        let original_state = state.clone();
        match self.parser.parse(arena, state, min_indent) {
            Ok((_, first_output, next_state)) => {
                let end = rest_of_list(
                    &self.delimiter,
                    &self.parser,
                    arena,
                    first_output,
                    next_state.clone(),
                    min_indent,
                );
                let res = match end {
                    ListEnd::Complete { items, end } => Ok((Progress::MadeProgress, items, end)),
                    ListEnd::DelimiterFailed { fail } => Err((Progress::MadeProgress, fail)),
                    // The delimiter was a trailing one.
                    ListEnd::ElementMissing { items, after_delimiter, .. } => Ok(
                        (Progress::MadeProgress, items, after_delimiter),
                    ),
                };
                assert(trailing_list(
                    self.delimiter,
                    self.parser,
                    next_state,
                    min_indent,
                    first_output,
                    res,
                ));
                res
            },
            Err((Progress::MadeProgress, fail)) => Err((Progress::MadeProgress, fail)),
            Err((Progress::NoProgress, _)) => Ok((Progress::NoProgress, Vec::new(), original_state)),
        }
    }
}

/// Parses zero or more elements with `delimiter` between them, and a delimiter
/// behind the last one if there is one. Where no element follows a delimiter, the
/// list ends behind that delimiter, whatever the failure of the element was.
pub fn trailing_sep_by0<'a, D, P, T, E>(delimiter: D, parser: P) -> (p: TrailingSepBy0<D, P>) where
    D: Parser<'a, (), E>,
    P: Parser<'a, T, E>,

    ensures
        p.delimiter == delimiter,
        p.parser == parser,
{
    TrailingSepBy0 { delimiter, parser }
}

/// A list of one or more elements. See [`sep_by1`].
pub struct SepBy1<D, P> {
    pub delimiter: D,
    pub parser: P,
}

impl<'a, D, P, T, E> Parser<'a, Vec<T>, E> for SepBy1<D, P> where
    D: Parser<'a, (), E>,
    P: Parser<'a, T, E>,
 {
    /// Both parsers can be run, and each success of the element parser consumes
    /// input.
    open spec fn wf(&self, min_indent: u32) -> bool {
        &&& self.delimiter.wf(min_indent)
        &&& self.parser.wf(min_indent)
        &&& consumes_on_success(self.parser, min_indent)
    }

    open spec fn yields(
        &self,
        state: State<'a>,
        min_indent: u32,
        res: ParseResult<'a, Vec<T>, E>,
    ) -> bool {
        exists|r1: ParseResult<'a, T, E>|
            #[trigger] self.parser.yields(state, min_indent, r1) && sound_step(state, r1)
                && match r1 {
                Ok((_, out, next)) => state.offset < next.offset && strict_list(
                    self.delimiter,
                    self.parser,
                    next,
                    min_indent,
                    out,
                    res,
                ),
                Err((progress, fail)) => fails_with(res, progress, fail),
            }
    }

    fn parse(&self, arena: &'a Bump, state: State<'a>, min_indent: u32) -> (res: ParseResult<
        'a,
        Vec<T>,
        E,
    >) {
        match self.parser.parse(arena, state, min_indent) {
            Ok((_, first_output, next_state)) => {
                let end = rest_of_list(
                    &self.delimiter,
                    &self.parser,
                    arena,
                    first_output,
                    next_state.clone(),
                    min_indent,
                );
                let res = match end {
                    ListEnd::Complete { items, end } => Ok((Progress::MadeProgress, items, end)),
                    ListEnd::DelimiterFailed { fail } => Err((Progress::MadeProgress, fail)),
                    // A delimiter was consumed: the missing element is an error.
                    ListEnd::ElementMissing { fail, .. } => Err((Progress::MadeProgress, fail)),
                };
                assert(strict_list(
                    self.delimiter,
                    self.parser,
                    next_state,
                    min_indent,
                    first_output,
                    res,
                ));
                res
            },
            Err((fail_progress, fail)) => Err((fail_progress, fail)),
        }
    }
}

/// Parses one or more elements with `delimiter` between them. Where the first
/// element fails, the list fails with its failure. Behind a delimiter an element
/// must follow: where none does, the list fails, after progress, with the failure of
/// the element.
pub fn sep_by1<'a, D, P, T, E>(delimiter: D, parser: P) -> (p: SepBy1<D, P>) where
    D: Parser<'a, (), E>,
    P: Parser<'a, T, E>,

    ensures
        p.delimiter == delimiter,
        p.parser == parser,
{
    SepBy1 { delimiter, parser }
}

/// A list of one or more elements that reports a missing element in its own
/// words. See [`sep_by1_e`].
pub struct SepBy1E<D, P, V> {
    pub delimiter: D,
    pub parser: P,
    pub to_element_error: V,
}

impl<'a, D, P, V, T, E> Parser<'a, Vec<T>, E> for SepBy1E<D, P, V> where
    D: Parser<'a, (), E>,
    P: Parser<'a, T, E>,
    V: Apply<(Position,), Output = E>,
 {
    /// Both parsers can be run, each success of the element parser consumes input,
    /// and the error function accepts every position.
    open spec fn wf(&self, min_indent: u32) -> bool {
        &&& self.delimiter.wf(min_indent)
        &&& self.parser.wf(min_indent)
        &&& consumes_on_success(self.parser, min_indent)
        &&& total(self.to_element_error)
    }

    open spec fn yields(
        &self,
        state: State<'a>,
        min_indent: u32,
        res: ParseResult<'a, Vec<T>, E>,
    ) -> bool {
        exists|r1: ParseResult<'a, T, E>|
            #[trigger] self.parser.yields(state, min_indent, r1) && sound_step(state, r1)
                && match r1 {
                Ok((_, out, next)) => state.offset < next.offset && remapped_list(
                    self.delimiter,
                    self.parser,
                    self.to_element_error,
                    next,
                    min_indent,
                    out,
                    res,
                ),
                Err((Progress::MadeProgress, fail)) => fails_with(
                    res,
                    Progress::MadeProgress,
                    fail,
                ),
                Err((Progress::NoProgress, _)) => element_expected(
                    self.to_element_error,
                    state,
                    res,
                ),
            }
    }

    fn parse(&self, arena: &'a Bump, state: State<'a>, min_indent: u32) -> (res: ParseResult<
        'a,
        Vec<T>,
        E,
    >) {
        let original_state = state.clone();
        match self.parser.parse(arena, state, min_indent) {
            Ok((_, first_output, next_state)) => {
                let end = rest_of_list(
                    &self.delimiter,
                    &self.parser,
                    arena,
                    first_output,
                    next_state.clone(),
                    min_indent,
                );
                let res = match end {
                    ListEnd::Complete { items, end } => Ok((Progress::MadeProgress, items, end)),
                    ListEnd::DelimiterFailed { fail } => Err((Progress::MadeProgress, fail)),
                    ListEnd::ElementMissing { progress: Progress::MadeProgress, fail, .. } => Err(
                        (Progress::MadeProgress, fail),
                    ),
                    // No element at all behind the delimiter: said in the caller's words.
                    ListEnd::ElementMissing {
                        progress: Progress::NoProgress,
                        after_delimiter,
                        ..
                    } => Err(
                        (Progress::NoProgress, self.to_element_error.apply((after_delimiter.pos(),))),
                    ),
                };
                assert(closes_remapped(self.to_element_error, end, res));
                assert(remapped_list(
                    self.delimiter,
                    self.parser,
                    self.to_element_error,
                    next_state,
                    min_indent,
                    first_output,
                    res,
                ));
                res
            },
            Err((Progress::MadeProgress, fail)) => Err((Progress::MadeProgress, fail)),
            // No element at all: said in the caller's words.
            Err((Progress::NoProgress, _)) => Err(
                (Progress::NoProgress, self.to_element_error.apply((original_state.pos(),))),
            ),
        }
    }
}

/// Parses one or more elements with `delimiter` between them. Where an element
/// fails without progress, at the start or behind a delimiter, the list fails without
/// progress with the error that `to_element_error` makes of the position where the
/// element was expected. Where an element fails after progress, the list fails with
/// that failure.
pub fn sep_by1_e<'a, D, P, V, T, E>(delimiter: D, parser: P, to_element_error: V) -> (p: SepBy1E<
    D,
    P,
    V,
>) where D: Parser<'a, (), E>, P: Parser<'a, T, E>, V: Apply<(Position,), Output = E>
    ensures
        p.delimiter == delimiter,
        p.parser == parser,
        p.to_element_error == to_element_error,
{
    SepBy1E { delimiter, parser, to_element_error }
}

} // verus!
