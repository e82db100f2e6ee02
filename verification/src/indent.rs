//! The minimum indentation, the column left of which no token of the current construct
//! may begin, and the ways in which a construct sets it for the parsers inside it.
use vstd::prelude::*;
use bumpalo::Bump;
use crate::parser::{ParseResult, Parser, Progress};
use crate::sequence::{in_sequence, second_of};
use crate::state::{State, MAX_INPUT_LEN};

verus! {

/// A parser freed from the indentation around it. See [`reset_min_indent`].
pub struct ResetMinIndent<P> {
    pub parser: P,
}

impl<'a, P, T, X> Parser<'a, T, X> for ResetMinIndent<P> where P: Parser<'a, T, X> {
    open spec fn wf(&self, min_indent: u32) -> bool {
        self.parser.wf(0)
    }

    open spec fn yields(&self, state: State<'a>, min_indent: u32, res: ParseResult<'a, T, X>) -> bool {
        self.parser.yields(state, 0, res)
    }

    fn parse(&self, arena: &'a Bump, state: State<'a>, min_indent: u32) -> (res: ParseResult<
        'a,
        T,
        X,
    >) {
        self.parser.parse(arena, state, 0)
    }
}

/// Runs `parser` under the minimum indentation 0, whatever the one around it: for
/// what stands between delimiters.
pub fn reset_min_indent<'a, P, T, X>(parser: P) -> (p: ResetMinIndent<P>) where
    P: Parser<'a, T, X>,

    ensures
        p.parser == parser,
{
    ResetMinIndent { parser }
}

/// A parser under a fixed minimum indentation. See [`set_min_indent`].
pub struct SetMinIndent<P> {
    pub min_indent: u32,
    pub parser: P,
}

impl<'a, P, T, X> Parser<'a, T, X> for SetMinIndent<P> where P: Parser<'a, T, X> {
    open spec fn wf(&self, min_indent: u32) -> bool {
        self.parser.wf(self.min_indent)
    }

    open spec fn yields(&self, state: State<'a>, min_indent: u32, res: ParseResult<'a, T, X>) -> bool {
        self.parser.yields(state, self.min_indent, res)
    }

    fn parse(&self, arena: &'a Bump, state: State<'a>, min_indent: u32) -> (res: ParseResult<
        'a,
        T,
        X,
    >) {
        self.parser.parse(arena, state, self.min_indent)
    }
}

/// Runs `parser` under the minimum indentation `min_indent`, whatever the one
/// around it.
pub fn set_min_indent<'a, P, T, X>(min_indent: u32, parser: P) -> (p: SetMinIndent<P>) where
    P: Parser<'a, T, X>,

    ensures
        p.min_indent == min_indent,
        p.parser == parser,
{
    SetMinIndent { min_indent, parser }
}

/// A parser indented one column more. See [`increment_min_indent`].
pub struct IncrementMinIndent<P> {
    pub parser: P,
}

impl<'a, P, T, X> Parser<'a, T, X> for IncrementMinIndent<P> where P: Parser<'a, T, X> {
    /// The threshold has room for one more.
    open spec fn wf(&self, min_indent: u32) -> bool {
        min_indent < u32::MAX && self.parser.wf((min_indent + 1) as u32)
    }

    open spec fn yields(&self, state: State<'a>, min_indent: u32, res: ParseResult<'a, T, X>) -> bool {
        self.parser.yields(state, (min_indent + 1) as u32, res)
    }

    fn parse(&self, arena: &'a Bump, state: State<'a>, min_indent: u32) -> (res: ParseResult<
        'a,
        T,
        X,
    >) {
        self.parser.parse(arena, state, min_indent + 1)
    }
}

/// Runs `parser` under a minimum indentation one greater than the one around it.
pub fn increment_min_indent<'a, P, T, X>(parser: P) -> (p: IncrementMinIndent<P>) where
    P: Parser<'a, T, X>,

    ensures
        p.parser == parser,
{
    IncrementMinIndent { parser }
}

/// The greater of the indentation of the cursor's line and `min_indent`.
pub open spec fn line_threshold(state: State, min_indent: u32) -> u32 {
    if state.line_indent_spec() >= min_indent {
        state.line_indent_spec() as u32
    } else {
        min_indent
    }
}

/// A parser indented at least as far as its line. See [`line_min_indent`].
pub struct LineMinIndent<P> {
    pub parser: P,
}

impl<'a, P, T, X> Parser<'a, T, X> for LineMinIndent<P> where P: Parser<'a, T, X> {
    /// The parser can be run under the ambient threshold and under every greater one
    /// that the indentation of a line can reach.
    open spec fn wf(&self, min_indent: u32) -> bool {
        forall|indent: u32|
            min_indent <= indent && (indent == min_indent || indent <= MAX_INPUT_LEN)
                ==> #[trigger] self.parser.wf(indent)
    }

    open spec fn yields(&self, state: State<'a>, min_indent: u32, res: ParseResult<'a, T, X>) -> bool {
        self.parser.yields(state, line_threshold(state, min_indent), res)
    }

    fn parse(&self, arena: &'a Bump, state: State<'a>, min_indent: u32) -> (res: ParseResult<
        'a,
        T,
        X,
    >) {
        let line_indent = state.line_indent();
        let min_indent = if line_indent >= min_indent {
            line_indent
        } else {
            min_indent
        };
        self.parser.parse(arena, state, min_indent)
    }
}

/// Runs `parser` under the indentation of the line that the cursor is on, or under
/// the minimum indentation around it where that is greater.
pub fn line_min_indent<'a, P, T, X>(parser: P) -> (p: LineMinIndent<P>) where
    P: Parser<'a, T, X>,

    ensures
        p.parser == parser,
{
    LineMinIndent { parser }
}

/// A parser right of the cursor's column. See [`absolute_column_min_indent`].
pub struct AbsoluteColumnMinIndent<P> {
    pub parser: P,
}

impl<'a, P, T, X> Parser<'a, T, X> for AbsoluteColumnMinIndent<P> where P: Parser<'a, T, X> {
    /// The parser can be run under every threshold that lies one beyond a column.
    open spec fn wf(&self, min_indent: u32) -> bool {
        forall|indent: u32| 1 <= indent <= MAX_INPUT_LEN + 1 ==> #[trigger] self.parser.wf(indent)
    }

    open spec fn yields(&self, state: State<'a>, min_indent: u32, res: ParseResult<'a, T, X>) -> bool {
        self.parser.yields(state, (state.column_spec() + 1) as u32, res)
    }

    fn parse(&self, arena: &'a Bump, state: State<'a>, min_indent: u32) -> (res: ParseResult<
        'a,
        T,
        X,
    >) {
        let min_indent = state.column() + 1;
        self.parser.parse(arena, state, min_indent)
    }
}

/// Runs `parser` under a minimum indentation one greater than the cursor's column:
/// what it parses begins right of where it was introduced.
pub fn absolute_column_min_indent<'a, P, T, X>(parser: P) -> (p: AbsoluteColumnMinIndent<P>) where
    P: Parser<'a, T, X>,

    ensures
        p.parser == parser,
{
    AbsoluteColumnMinIndent { parser }
}

/// An introducer and a body indented further than the introducer's line. See
/// [`indented_seq`].
pub struct IndentedSeq<PA, PB> {
    pub first: PA,
    pub second: PB,
}

impl<'a, PA, PB, B, E> Parser<'a, B, E> for IndentedSeq<PA, PB> where
    PA: Parser<'a, (), E>,
    PB: Parser<'a, B, E>,
 {
    /// The first parser can be run under every threshold that the indentation of a
    /// line can reach, the second under every threshold one beyond such a one.
    open spec fn wf(&self, min_indent: u32) -> bool {
        &&& forall|indent: u32| indent <= MAX_INPUT_LEN ==> #[trigger] self.first.wf(indent)
        &&& forall|indent: u32|
            1 <= indent <= MAX_INPUT_LEN + 1 ==> #[trigger] self.second.wf(indent)
    }

    open spec fn yields(&self, state: State<'a>, min_indent: u32, res: ParseResult<'a, B, E>) -> bool {
        exists|both: ParseResult<'a, ((), B), E>| #[trigger]
            in_sequence(
                self.first,
                self.second,
                state,
                state.line_indent_spec() as u32,
                (state.line_indent_spec() + 1) as u32,
                both,
            ) && res == second_of(both)
    }

    fn parse(&self, arena: &'a Bump, state: State<'a>, min_indent: u32) -> (res: ParseResult<
        'a,
        B,
        E,
    >) {
        let start_indent = state.line_indent();
        let p1_indent = start_indent;
        let p2_indent = p1_indent + 1;
        match self.first.parse(arena, state, p1_indent) {
            Ok((p1, out1, mid)) => match self.second.parse(arena, mid, p2_indent) {
                Ok((p2, out2, next)) => {
                    let progress = p1.or(p2);
                    assert(in_sequence(
                        self.first,
                        self.second,
                        state,
                        state.line_indent_spec() as u32,
                        (state.line_indent_spec() + 1) as u32,
                        Ok::<_, (Progress, E)>((progress, (out1, out2), next)),
                    ));
                    Ok((progress, out2, next))
                },
                Err((p2, fail)) => {
                    let progress = p1.or(p2);
                    assert(in_sequence(
                        self.first,
                        self.second,
                        state,
                        state.line_indent_spec() as u32,
                        (state.line_indent_spec() + 1) as u32,
                        Err::<(Progress, ((), B), State<'a>), _>((progress, fail)),
                    ));
                    Err((progress, fail))
                },
            },
            Err((progress, fail)) => {
                assert(in_sequence(
                    self.first,
                    self.second,
                    state,
                    state.line_indent_spec() as u32,
                    (state.line_indent_spec() + 1) as u32,
                    Err::<(Progress, ((), B), State<'a>), _>((progress, fail)),
                ));
                Err((progress, fail))
            },
        }
    }
}

/// Runs `p1` under the indentation of the line that the cursor is on, then `p2`
/// under one more: an introducer, and a body that must be indented further than the
/// introducer's line. The minimum indentation around the whole is not looked at. The
/// output is that of `p2`; progress is that of both.
pub fn indented_seq<'a, PA, PB, B, E>(p1: PA, p2: PB) -> (p: IndentedSeq<PA, PB>) where
    PA: Parser<'a, (), E>,
    PB: Parser<'a, B, E>,

    ensures
        p.first == p1,
        p.second == p2,
{
    IndentedSeq { first: p1, second: p2 }
}

/// Two parsers, the second indented further than the column where the first
/// began. See [`absolute_indented_seq`].
pub struct AbsoluteIndentedSeq<PA, PB> {
    pub first: PA,
    pub second: PB,
}

impl<'a, PA, PB, A, B, E> Parser<'a, (A, B), E> for AbsoluteIndentedSeq<PA, PB> where
    PA: Parser<'a, A, E>,
    PB: Parser<'a, B, E>,
 {
    /// The first parser can be run under every threshold that a column can reach,
    /// the second under every threshold one beyond such a one.
    open spec fn wf(&self, min_indent: u32) -> bool {
        &&& forall|indent: u32| indent <= MAX_INPUT_LEN ==> #[trigger] self.first.wf(indent)
        &&& forall|indent: u32|
            1 <= indent <= MAX_INPUT_LEN + 1 ==> #[trigger] self.second.wf(indent)
    }

    open spec fn yields(
        &self,
        state: State<'a>,
        min_indent: u32,
        res: ParseResult<'a, (A, B), E>,
    ) -> bool {
        in_sequence(
            self.first,
            self.second,
            state,
            state.column_spec() as u32,
            (state.column_spec() + 1) as u32,
            res,
        )
    }

    fn parse(&self, arena: &'a Bump, state: State<'a>, min_indent: u32) -> (res: ParseResult<
        'a,
        (A, B),
        E,
    >) {
        let start_indent = state.column();
        let p1_indent = start_indent;
        let p2_indent = p1_indent + 1;
        match self.first.parse(arena, state, p1_indent) {
            Ok((p1, out1, mid)) => match self.second.parse(arena, mid, p2_indent) {
                Ok((p2, out2, next)) => Ok((p1.or(p2), (out1, out2), next)),
                Err((p2, fail)) => Err((p1.or(p2), fail)),
            },
            Err((progress, fail)) => Err((progress, fail)),
        }
    }
}

/// Runs `p1` under the cursor's column, then `p2` under one more: `p2` must begin
/// right of the column where `p1` began. The minimum indentation around the whole is
/// not looked at. The output is the pair of both outputs; progress is that of both.
pub fn absolute_indented_seq<'a, PA, PB, A, B, E>(p1: PA, p2: PB) -> (p: AbsoluteIndentedSeq<
    PA,
    PB,
>) where PA: Parser<'a, A, E>, PB: Parser<'a, B, E>
    ensures
        p.first == p1,
        p.second == p2,
{
    AbsoluteIndentedSeq { first: p1, second: p2 }
}

} // verus!
