//! What a parser is: a value that, run on a state under an indentation
//! threshold, either succeeds with an output and the next state or fails with an
//! error, and says in both cases whether it consumed input.
use vstd::prelude::*;
use bumpalo::Bump;
use crate::state::State;

verus! {

/// One of two values.
#[derive(Debug, Clone, Copy, PartialEq, Eq)]
pub enum Either<First, Second> {
    First(First),
    Second(Second),
}

/// Whether a parse attempt consumed any input.
#[derive(Debug, Clone, Copy, PartialEq, Eq, Structural)]
pub enum Progress {
    MadeProgress,
    NoProgress,
}

impl Progress {
    /// `MadeProgress` exactly when `made_progress` holds.
    pub open spec fn when(made_progress: bool) -> Progress {
        if made_progress {
            Progress::MadeProgress
        } else {
            Progress::NoProgress
        }
    }

    /// Progress of two steps in a row: made as soon as one of them made some.
    pub open spec fn or_spec(self, other: Progress) -> Progress {
        Progress::when(self == Progress::MadeProgress || other == Progress::MadeProgress)
    }

    /// Progress that both steps made.
    pub open spec fn and_spec(self, other: Progress) -> Progress {
        Progress::when(self == Progress::MadeProgress && other == Progress::MadeProgress)
    }

    /// Progress from the input lengths before and after an attempt.
    pub fn from_lengths(before: usize, after: usize) -> (r: Progress)
        requires
            after <= before,
        ensures
            r == Progress::when(before != after),
    {
        Self::from_consumed(before - after)
    }

    /// Progress from the number of bytes consumed.
    pub fn from_consumed(chars_consumed: usize) -> (r: Progress)
        ensures
            r == Progress::when(chars_consumed != 0),
    {
        Self::progress_when(chars_consumed != 0)
    }

    pub fn progress_when(made_progress: bool) -> (r: Progress)
        ensures
            r == Progress::when(made_progress),
    {
        if made_progress {
            Progress::MadeProgress
        } else {
            Progress::NoProgress
        }
    }

    pub fn or(&self, other: Progress) -> (r: Progress)
        ensures
            r == self.or_spec(other),
    {
        if (*self == Progress::MadeProgress) || (other == Progress::MadeProgress) {
            Progress::MadeProgress
        } else {
            Progress::NoProgress
        }
    }

    pub fn and(&self, other: Progress) -> (r: Progress)
        ensures
            r == self.and_spec(other),
    {
        if (*self == Progress::MadeProgress) && (other == Progress::MadeProgress) {
            Progress::MadeProgress
        } else {
            Progress::NoProgress
        }
    }
}

/// The outcome of one parse attempt. A failure carries no state: the caller keeps
/// the state it started from.
pub type ParseResult<'a, Output, Error> = Result<(Progress, Output, State<'a>), (Progress, Error)>;

/// `res` is the success with this progress, output and next state.
pub open spec fn succeeds_with<'a, Output, Error>(
    res: ParseResult<'a, Output, Error>,
    progress: Progress,
    out: Output,
    next: State<'a>,
) -> bool {
    res == Ok::<_, (Progress, Error)>((progress, out, next))
}

/// `res` is the failure with this progress and error.
pub open spec fn fails_with<'a, Output, Error>(
    res: ParseResult<'a, Output, Error>,
    progress: Progress,
    fail: Error,
) -> bool {
    res == Err::<(Progress, Output, State<'a>), _>((progress, fail))
}

/// A success hands back a state that continues the one the attempt started from.
pub open spec fn sound_step<'a, Output, Error>(
    state: State<'a>,
    res: ParseResult<'a, Output, Error>,
) -> bool {
    res matches Ok((_, _, next)) ==> next.continues(state)
}

/// The progress that an outcome reports.
pub open spec fn progress_of<'a, Output, Error>(res: ParseResult<'a, Output, Error>) -> Progress {
    match res {
        Ok((progress, _, _)) => progress,
        Err((progress, _)) => progress,
    }
}

/// A success reports progress exactly when it left less input than it found.
pub open spec fn honest_step<'a, Output, Error>(
    state: State<'a>,
    res: ParseResult<'a, Output, Error>,
) -> bool {
    res matches Ok((progress, _, next)) ==> {
        &&& progress == Progress::MadeProgress ==> next.remaining().len() < state.remaining().len()
        &&& progress == Progress::NoProgress ==> next.remaining().len() == state.remaining().len()
    }
}

/// A parser: run on a state under a minimum indentation, it yields an outcome.
///
/// `yields` is the parser's meaning, the relation between where it starts and how it
/// may end. `wf` says that the parser can be run under a minimum indentation: the
/// functions it was built from accept what it hands them, its loops come to an end,
/// and the thresholds it computes fit their type.
pub trait Parser<'a, Output, Error> {
    /// The parser can be run under `min_indent`, on every well-formed state.
    spec fn wf(&self, min_indent: u32) -> bool;

    /// `res` is an outcome of running the parser on `state` under `min_indent`.
    spec fn yields(
        &self,
        state: State<'a>,
        min_indent: u32,
        res: ParseResult<'a, Output, Error>,
    ) -> bool;

    /// Runs the parser on `state`. What it builds, it allocates in `arena`.
    fn parse(&self, arena: &'a Bump, state: State<'a>, min_indent: u32) -> (res: ParseResult<
        'a,
        Output,
        Error,
    >)
        requires
            self.wf(min_indent),
            state.wf(),
        ensures
            self.yields(state, min_indent, res),
            sound_step(state, res),
    ;

    /// Names the parser for tracing. Tracing is off here: the parser comes back as it is.
    fn trace(self, message: &'static str) -> (p: Self) where Self: Sized
        ensures
            p == self,
    {
        self
    }
}

/// A function from arena, state and minimum indentation to an outcome is a parser.
/// It yields what its own postcondition allows, for some arena.
impl<'a, F, Output, Error> Parser<'a, Output, Error> for F where
    F: Fn(&'a Bump, State<'a>, u32) -> ParseResult<'a, Output, Error>,
 {
    open spec fn wf(&self, min_indent: u32) -> bool {
        &&& forall|arena: &'a Bump, state: State<'a>|
            state.wf() ==> #[trigger] self.requires((arena, state, min_indent))
        &&& forall|arena: &'a Bump, state: State<'a>, res: ParseResult<'a, Output, Error>|
            state.wf() && #[trigger] self.ensures((arena, state, min_indent), res) ==> sound_step(
                state,
                res,
            )
    }

    open spec fn yields(
        &self,
        state: State<'a>,
        min_indent: u32,
        res: ParseResult<'a, Output, Error>,
    ) -> bool {
        exists|arena: &'a Bump| #[trigger] self.ensures((arena, state, min_indent), res)
    }

    fn parse(&self, arena: &'a Bump, state: State<'a>, min_indent: u32) -> (res: ParseResult<
        'a,
        Output,
        Error,
    >) {
        self(arena, state, min_indent)
    }
}

/// Every success of `p` under `min_indent` consumes at least one byte.
pub open spec fn consumes_on_success<'a, Output, Error, P: Parser<'a, Output, Error>>(
    p: P,
    min_indent: u32,
) -> bool {
    forall|state: State<'a>, res: ParseResult<'a, Output, Error>|
        state.wf() && #[trigger] p.yields(state, min_indent, res) && sound_step(state, res) ==> (res
            matches Ok((_, _, next)) ==> state.offset < next.offset)
}

/// Every success of `p` reports its progress honestly.
pub open spec fn progress_honest<'a, Output, Error, P: Parser<'a, Output, Error>>(p: P) -> bool {
    forall|state: State<'a>, min_indent: u32, res: ParseResult<'a, Output, Error>|
        state.wf() && #[trigger] p.yields(state, min_indent, res) && sound_step(state, res)
            ==> honest_step(state, res)
}

} // verus!
