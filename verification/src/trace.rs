//! Watching parsers at work.
//!
//! A traced parser tells a tracer when it is tried and how it ended, and hands back
//! what the parser inside it hands back. What is done with the reports, printing
//! them for one, is the tracer's business; the nesting depth is the tracer's to keep.
use vstd::prelude::*;
use vstd::string::StrSliceExecFns;
use bumpalo::Bump;
use crate::parser::{progress_of, ParseResult, Parser, Progress};
use crate::region::Position;
use crate::state::State;

verus! {

/// The deepest nesting that [`indent_text`] has a rule for.
pub const MAX_TRACE_DEPTH: usize = 36;

/// The rule that trace lines are indented with: two columns for each level of
/// nesting.
pub open spec fn indent_rule() -> Seq<char> {
    "| ; : ! | ; : ! | ; : ! | ; : ! | ; : ! | ; : ! | ; : ! | ; : ! | ; : ! "@
}

/// The text that a trace line at nesting `depth` begins with: the first two columns
/// of the rule for each level.
pub fn indent_text(depth: usize) -> (text: &'static str)
    requires
        depth <= MAX_TRACE_DEPTH,
    ensures
        text@ == indent_rule().subrange(0, 2 * depth),
{
    let rule = "| ; : ! | ; : ! | ; : ! | ; : ! | ; : ! | ; : ! | ; : ! | ; : ! | ; : ! ";
    proof {
        reveal_strlit("| ; : ! | ; : ! | ; : ! | ; : ! | ; : ! | ; : ! | ; : ! | ; : ! | ; : ! ");
    }
    rule.substring_ascii(0, depth * 2)
}

/// One report of a traced parser.
#[derive(Debug, Clone, Copy, PartialEq, Eq)]
pub struct TraceLine {
    /// The name that the parser was traced under.
    pub message: &'static str,
    /// Where the cursor stood: at the start for an attempt and for a failure, behind
    /// what was consumed for a success.
    pub pos: Position,
    /// The progress that the parser reported; nothing for an attempt that has not
    /// ended yet.
    pub progress: Option<Progress>,
}

/// The report that a parser named `message` is tried at `state`.
pub fn attempt_line(message: &'static str, state: &State) -> (line: TraceLine)
    requires
        state.wf(),
    ensures
        line.message == message,
        line.pos == state.pos_spec(),
        line.progress is None,
{
    TraceLine { message, pos: state.pos(), progress: None }
}

/// The report that a parser named `message`, tried at `before`, ended in `res`.
pub fn outcome_line<'a, O, E>(
    message: &'static str,
    before: &State<'a>,
    res: &ParseResult<'a, O, E>,
) -> (line: TraceLine)
    requires
        before.wf(),
        res matches Ok((_, _, next)) ==> next.wf(),
    ensures
        line.message == message,
        line.pos == (match *res {
            Ok((_, _, next)) => next.pos_spec(),
            Err(_) => before.pos_spec(),
        }),
        line.progress == Some(progress_of(*res)),
{
    match res {
        Ok((progress, _, next)) => TraceLine { message, pos: next.pos(), progress: Some(*progress) },
        Err((progress, _)) => TraceLine { message, pos: before.pos(), progress: Some(*progress) },
    }
}

/// What takes the reports of traced parsers.
pub trait Tracer {
    /// A parser is tried.
    fn attempt(&self, line: &TraceLine);

    /// The parser that was tried last and has not ended yet has ended, with this
    /// output or this error.
    fn outcome<O: core::fmt::Debug, E: core::fmt::Debug>(
        &self,
        line: &TraceLine,
        value: Result<&O, &E>,
    );
}

/// A parser that reports to a tracer. See [`traced`].
pub struct Traced<P, R> {
    pub parser: P,
    pub message: &'static str,
    pub tracer: R,
}

impl<'a, O, E, P, R> Parser<'a, O, E> for Traced<P, R> where
    O: core::fmt::Debug,
    E: core::fmt::Debug,
    P: Parser<'a, O, E>,
    R: Tracer,
 {
    open spec fn wf(&self, min_indent: u32) -> bool {
        self.parser.wf(min_indent)
    }

    open spec fn yields(&self, state: State<'a>, min_indent: u32, res: ParseResult<'a, O, E>) -> bool {
        self.parser.yields(state, min_indent, res)
    }

    fn parse(&self, arena: &'a Bump, state: State<'a>, min_indent: u32) -> (res: ParseResult<
        'a,
        O,
        E,
    >) {
        self.tracer.attempt(&attempt_line(self.message, &state));
        let previous_state = state.clone();
        let res = self.parser.parse(arena, state, min_indent);
        let line = outcome_line(self.message, &previous_state, &res);
        match &res {
            Ok((_, result, _)) => self.tracer.outcome::<O, E>(&line, Ok(result)),
            Err((_, error)) => self.tracer.outcome::<O, E>(&line, Err(error)),
        }
        res
    }
}

/// Runs `parser` and reports to `tracer`, under the name `message`, that it is tried
/// and how it ended. The outcome is that of `parser`, whatever the tracer does.
pub fn traced<'a, O, E, P, R>(parser: P, message: &'static str, tracer: R) -> (p: Traced<P, R>) where
    O: core::fmt::Debug,
    E: core::fmt::Debug,
    P: Parser<'a, O, E>,
    R: Tracer,

    ensures
        p.parser == parser,
        p.message == message,
        p.tracer == tracer,
{
    Traced { parser, message, tracer }
}

} // verus!
