//! A parser-combinator engine for indentation-sensitive source text.
//!
//! A parser is run on a [`state::State`], a cursor over the input, under a minimum
//! indentation, and either succeeds with an output and the state behind what it
//! consumed, or fails with an error. Either way it says whether it made progress, that
//! is, whether it consumed input. Progress is what choice and repetition go by: a
//! parser that fails without progress has found nothing, and something else may be
//! tried in its place; one that fails after progress has found a construct that is
//! broken, and its failure is final.
//!
//! - [`region`], [`state`]: positions, spans, and the cursor.
//! - [`parser`]: what a parser is, and what it means for one to be run.
//! - [`apply`]: the functions that callers hand to parsers.
//! - [`literal`]: matchers for bytes and words.
//! - [`sequence`], [`choice`], [`repeat`], [`separated`]: parsers made of parsers.
//! - [`transform`]: parsers that change the output, the error, the progress or the
//!   span of another.
//! - [`indent`]: parsers that set the minimum indentation for another.
//! - [`trace`]: parsers that report what they do.
//! - [`error`]: the syntax errors of the language, rule by rule.
//! - [`arena`]: allocation in the arena of a parse.
//! - [`laws`]: what holds of every parser built from these.
//! - [`meaning`]: what each parser means, as a lemma, for proofs about parsers that
//!   hold closures.
pub mod apply;
pub mod arena;
pub mod choice;
pub mod error;
pub mod indent;
pub mod laws;
pub mod literal;
pub mod meaning;
pub mod parser;
pub mod region;
pub mod repeat;
pub mod separated;
pub mod sequence;
pub mod state;
pub mod trace;
pub mod transform;
