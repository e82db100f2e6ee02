//! Matchers for literal bytes and words.
//!
//! Each of them either consumes exactly its literal and reports progress, or consumes
//! nothing and fails, without progress, with the error that the caller's function makes
//! of the position. None of them takes a newline for its literal: they move the cursor
//! along the line and leave the line markers alone.
use vstd::prelude::*;
use vstd::string::StringSliceAdditionalSpecFns;
use bumpalo::Bump;
use crate::apply::{total, Apply};
use crate::parser::{succeeds_with, ParseResult, Parser, Progress};
use crate::region::Position;
use crate::state::State;

verus! {

/// The byte of the newline character.
pub const NEWLINE: u8 = 10;

/// The byte of the carriage return.
pub const CARRIAGE_RETURN: u8 = 13;

/// The byte of the space character.
pub const SPACE: u8 = 32;

/// The byte that starts a comment.
pub const COMMENT_START: u8 = 35;

/// No byte of `literal` is a newline.
pub open spec fn newline_free(literal: Seq<u8>) -> bool {
    forall|i: int| 0 <= i < literal.len() ==> literal[i] != NEWLINE
}

/// A byte after which a word has ended: a space, the start of a comment, or a line
/// break.
pub open spec fn ends_word(b: u8) -> bool {
    b == SPACE || b == COMMENT_START || b == NEWLINE || b == CARRIAGE_RETURN
}

/// `input` begins with the whole word `word`: with its bytes, followed by the end of
/// the input or by a byte that ends a word.
pub open spec fn at_word(input: Seq<u8>, word: Seq<u8>) -> bool {
    &&& word.is_prefix_of(input)
    &&& input.len() > word.len() ==> ends_word(input[word.len() as int])
}

/// `res` is the success of a matcher that found its literal of `width` bytes at
/// `state`: progress, and the cursor behind the literal.
pub open spec fn matched<'a, E>(state: State<'a>, width: int, res: ParseResult<'a, (), E>) -> bool {
    succeeds_with(res, Progress::MadeProgress, (), state.advance_spec(width))
}

/// `res` is the failure of a matcher that did not find its literal at `state`: no
/// progress, and an error that `to_error` makes of the cursor's position.
pub open spec fn mismatched<'a, F: Apply<(Position,), Output = E>, E>(
    to_error: F,
    state: State<'a>,
    res: ParseResult<'a, (), E>,
) -> bool {
    res matches Err((progress, e)) && progress == Progress::NoProgress && to_error.maps(
        (state.pos_spec(),),
        e,
    )
}

/// Matches a whole word. See [`word`].
pub struct Word<F> {
    pub word: &'static str,
    pub to_error: F,
}

impl<'a, F, E> Parser<'a, (), E> for Word<F> where F: Apply<(Position,), Output = E> {
    open spec fn wf(&self, min_indent: u32) -> bool {
        newline_free(self.word.spec_bytes()) && total(self.to_error)
    }

    open spec fn yields(&self, state: State<'a>, min_indent: u32, res: ParseResult<'a, (), E>) -> bool {
        if at_word(state.remaining(), self.word.spec_bytes()) {
            matched(state, self.word.spec_bytes().len() as int, res)
        } else {
            mismatched(self.to_error, state, res)
        }
    }

    fn parse(&self, arena: &'a Bump, state: State<'a>, min_indent: u32) -> (res: ParseResult<
        'a,
        (),
        E,
    >) {
        let needle = self.word.as_bytes();
        let width = needle.len();
        if !state.starts_with(needle) {
            return Err((Progress::NoProgress, self.to_error.apply((state.pos(),))));
        }
        // What follows must not go on as an identifier would: `whence` is no `when`.
        let bytes = state.bytes();
        if width < bytes.len() {
            let next = bytes[width];
            if next == SPACE || next == COMMENT_START || next == NEWLINE || next == CARRIAGE_RETURN {
                Ok((Progress::MadeProgress, (), state.advance(width)))
            } else {
                Err((Progress::NoProgress, self.to_error.apply((state.pos(),))))
            }
        } else {
            Ok((Progress::MadeProgress, (), state.advance(width)))
        }
    }
}

/// Matches the word `literal`, and moves the cursor behind it. The word matches only
/// where a space, the start of a comment, a line break or the end of the input
/// follows it.
pub fn word<F, E>(literal: &'static str, to_error: F) -> (p: Word<F>) where F: Apply<(Position,), Output = E>
    requires
        newline_free(literal.spec_bytes()),
    ensures
        p.word == literal,
        p.to_error == to_error,
{
    Word { word: literal, to_error }
}

/// Matches the keyword `keyword_str`, as [`word`] does: `iffy` does not begin with
/// the keyword `if`.
pub fn keyword<F, E>(keyword_str: &'static str, if_error: F) -> (p: Word<F>) where
    F: Apply<(Position,), Output = E>,

    requires
        newline_free(keyword_str.spec_bytes()),
    ensures
        p.word == keyword_str,
        p.to_error == if_error,
{
    Word { word: keyword_str, to_error: if_error }
}

/// Matches a single byte. See [`byte`].
pub struct Byte<F> {
    pub byte_to_match: u8,
    pub to_error: F,
}

impl<'a, F, E> Parser<'a, (), E> for Byte<F> where F: Apply<(Position,), Output = E> {
    open spec fn wf(&self, min_indent: u32) -> bool {
        self.byte_to_match != NEWLINE && total(self.to_error)
    }

    open spec fn yields(&self, state: State<'a>, min_indent: u32, res: ParseResult<'a, (), E>) -> bool {
        if state.looking_at(seq![self.byte_to_match]) {
            matched(state, 1, res)
        } else {
            mismatched(self.to_error, state, res)
        }
    }

    fn parse(&self, arena: &'a Bump, state: State<'a>, min_indent: u32) -> (res: ParseResult<
        'a,
        (),
        E,
    >) {
        let bytes = state.bytes();
        if bytes.len() >= 1 && bytes[0] == self.byte_to_match {
            assert(seq![self.byte_to_match] =~= bytes@.subrange(0, 1));
            Ok((Progress::MadeProgress, (), state.advance(1)))
        } else {
            assert(bytes@.len() >= 1 ==> bytes@.subrange(0, 1)[0] == bytes@[0]);
            Err((Progress::NoProgress, self.to_error.apply((state.pos(),))))
        }
    }
}

/// Matches the byte `byte_to_match`, and moves the cursor one byte on.
pub fn byte<F, E>(byte_to_match: u8, to_error: F) -> (p: Byte<F>) where F: Apply<(Position,), Output = E>
    requires
        byte_to_match != NEWLINE,
    ensures
        p.byte_to_match == byte_to_match,
        p.to_error == to_error,
{
    Byte { byte_to_match, to_error }
}

/// Matches a single byte that is indented far enough. See [`byte_indent`].
pub struct ByteIndent<F> {
    pub byte_to_match: u8,
    pub to_error: F,
}

impl<'a, F, E> Parser<'a, (), E> for ByteIndent<F> where F: Apply<(Position,), Output = E> {
    open spec fn wf(&self, min_indent: u32) -> bool {
        self.byte_to_match != NEWLINE && total(self.to_error)
    }

    open spec fn yields(&self, state: State<'a>, min_indent: u32, res: ParseResult<'a, (), E>) -> bool {
        if min_indent <= state.column_spec() && state.looking_at(seq![self.byte_to_match]) {
            matched(state, 1, res)
        } else {
            mismatched(self.to_error, state, res)
        }
    }

    fn parse(&self, arena: &'a Bump, state: State<'a>, min_indent: u32) -> (res: ParseResult<
        'a,
        (),
        E,
    >) {
        // A token left of the threshold is rejected before its bytes are looked at.
        if min_indent > state.column() {
            return Err((Progress::NoProgress, self.to_error.apply((state.pos(),))));
        }
        let bytes = state.bytes();
        if bytes.len() >= 1 && bytes[0] == self.byte_to_match {
            assert(seq![self.byte_to_match] =~= bytes@.subrange(0, 1));
            Ok((Progress::MadeProgress, (), state.advance(1)))
        } else {
            assert(bytes@.len() >= 1 ==> bytes@.subrange(0, 1)[0] == bytes@[0]);
            Err((Progress::NoProgress, self.to_error.apply((state.pos(),))))
        }
    }
}

/// Matches the byte `byte_to_match` where the cursor's column is at least the minimum
/// indentation, and moves the cursor one byte on. Left of that column it fails
/// whatever the byte is.
pub fn byte_indent<F, E>(byte_to_match: u8, to_error: F) -> (p: ByteIndent<F>) where
    F: Apply<(Position,), Output = E>,

    requires
        byte_to_match != NEWLINE,
    ensures
        p.byte_to_match == byte_to_match,
        p.to_error == to_error,
{
    ByteIndent { byte_to_match, to_error }
}

/// Matches two bytes in a row. See [`two_bytes`].
pub struct TwoBytes<F> {
    pub byte_1: u8,
    pub byte_2: u8,
    pub to_error: F,
}

impl<'a, F, E> Parser<'a, (), E> for TwoBytes<F> where F: Apply<(Position,), Output = E> {
    open spec fn wf(&self, min_indent: u32) -> bool {
        self.byte_1 != NEWLINE && self.byte_2 != NEWLINE && total(self.to_error)
    }

    open spec fn yields(&self, state: State<'a>, min_indent: u32, res: ParseResult<'a, (), E>) -> bool {
        if state.looking_at(seq![self.byte_1, self.byte_2]) {
            matched(state, 2, res)
        } else {
            mismatched(self.to_error, state, res)
        }
    }

    fn parse(&self, arena: &'a Bump, state: State<'a>, min_indent: u32) -> (res: ParseResult<
        'a,
        (),
        E,
    >) {
        let bytes = state.bytes();
        if bytes.len() >= 2 && bytes[0] == self.byte_1 && bytes[1] == self.byte_2 {
            assert(seq![self.byte_1, self.byte_2] =~= bytes@.subrange(0, 2));
            Ok((Progress::MadeProgress, (), state.advance(2)))
        } else {
            assert(bytes@.len() >= 2 ==> bytes@.subrange(0, 2)[0] == bytes@[0] && bytes@.subrange(
                0,
                2,
            )[1] == bytes@[1]);
            Err((Progress::NoProgress, self.to_error.apply((state.pos(),))))
        }
    }
}

/// Matches the bytes `byte_1` and `byte_2` in a row, and moves the cursor behind them.
pub fn two_bytes<F, E>(byte_1: u8, byte_2: u8, to_error: F) -> (p: TwoBytes<F>) where
    F: Apply<(Position,), Output = E>,

    requires
        byte_1 != NEWLINE,
        byte_2 != NEWLINE,
    ensures
        p.byte_1 == byte_1,
        p.byte_2 == byte_2,
        p.to_error == to_error,
{
    TwoBytes { byte_1, byte_2, to_error }
}

/// Matches three bytes in a row. See [`three_bytes`].
pub struct ThreeBytes<F> {
    pub byte_1: u8,
    pub byte_2: u8,
    pub byte_3: u8,
    pub to_error: F,
}

impl<'a, F, E> Parser<'a, (), E> for ThreeBytes<F> where F: Apply<(Position,), Output = E> {
    open spec fn wf(&self, min_indent: u32) -> bool {
        &&& self.byte_1 != NEWLINE
        &&& self.byte_2 != NEWLINE
        &&& self.byte_3 != NEWLINE
        &&& total(self.to_error)
    }

    open spec fn yields(&self, state: State<'a>, min_indent: u32, res: ParseResult<'a, (), E>) -> bool {
        if state.looking_at(seq![self.byte_1, self.byte_2, self.byte_3]) {
            matched(state, 3, res)
        } else {
            mismatched(self.to_error, state, res)
        }
    }

    fn parse(&self, arena: &'a Bump, state: State<'a>, min_indent: u32) -> (res: ParseResult<
        'a,
        (),
        E,
    >) {
        let bytes = state.bytes();
        if bytes.len() >= 3 && bytes[0] == self.byte_1 && bytes[1] == self.byte_2 && bytes[2]
            == self.byte_3 {
            assert(seq![self.byte_1, self.byte_2, self.byte_3] =~= bytes@.subrange(0, 3));
            Ok((Progress::MadeProgress, (), state.advance(3)))
        } else {
            assert(bytes@.len() >= 3 ==> bytes@.subrange(0, 3)[0] == bytes@[0] && bytes@.subrange(
                0,
                3,
            )[1] == bytes@[1] && bytes@.subrange(0, 3)[2] == bytes@[2]);
            Err((Progress::NoProgress, self.to_error.apply((state.pos(),))))
        }
    }
}

/// Matches the bytes `byte_1`, `byte_2` and `byte_3` in a row, and moves the cursor
/// behind them.
pub fn three_bytes<F, E>(byte_1: u8, byte_2: u8, byte_3: u8, to_error: F) -> (p: ThreeBytes<
    F,
>) where F: Apply<(Position,), Output = E>
    requires
        byte_1 != NEWLINE,
        byte_2 != NEWLINE,
        byte_3 != NEWLINE,
    ensures
        p.byte_1 == byte_1,
        p.byte_2 == byte_2,
        p.byte_3 == byte_3,
        p.to_error == to_error,
{
    ThreeBytes { byte_1, byte_2, byte_3, to_error }
}

} // verus!
