//! The cursor that parsers move over the input.
use vstd::prelude::*;
use crate::region::Position;

verus! {

/// The longest input that a state can run over. Every offset into such an input and
/// every column fit a `u32`, and they leave it room for 65535 more: for the
/// indentation that constructs inside one another add to a column.
pub const MAX_INPUT_LEN: u32 = 0xfffe_ffff;

/// A cursor over the input: the whole buffer, how far parsing has come, and where
/// the current line and its first token start.
///
/// The buffer is borrowed and never changed; a copy of the state shares it.
#[derive(Debug)]
pub struct State<'a> {
    /// The whole input. Index 0 is the start of the file, not the cursor.
    pub original_bytes: &'a [u8],
    /// How many bytes have been consumed.
    pub offset: usize,
    /// Where the current line starts.
    pub line_start: Position,
    /// Where the first token of the current line starts.
    pub line_start_after_whitespace: Position,
}

impl<'a> Clone for State<'a> {
    fn clone(&self) -> (s: Self)
        ensures
            s == *self,
    {
        State {
            original_bytes: self.original_bytes,
            offset: self.offset,
            line_start: self.line_start,
            line_start_after_whitespace: self.line_start_after_whitespace,
        }
    }
}

impl<'a> State<'a> {
    /// The cursor lies inside the buffer, the buffer is no longer than
    /// [`MAX_INPUT_LEN`], and the line markers come in order before the cursor.
    pub open spec fn wf(&self) -> bool {
        &&& self.original_bytes@.len() <= MAX_INPUT_LEN
        &&& self.offset <= self.original_bytes@.len()
        &&& self.line_start.offset <= self.line_start_after_whitespace.offset
        &&& self.line_start_after_whitespace.offset <= self.offset
    }

    /// The bytes that have not been consumed yet.
    pub open spec fn remaining(&self) -> Seq<u8> {
        self.original_bytes@.subrange(self.offset as int, self.original_bytes@.len() as int)
    }

    /// The position of the cursor.
    pub open spec fn pos_spec(&self) -> Position {
        Position { offset: self.offset as u32 }
    }

    /// How far the cursor is from the start of its line.
    pub open spec fn column_spec(&self) -> int {
        self.offset - self.line_start.offset
    }

    /// How far the first token of the current line is from the start of the line.
    pub open spec fn line_indent_spec(&self) -> int {
        self.line_start_after_whitespace.offset - self.line_start.offset
    }

    /// The state with the cursor `n` bytes further on, on the same line.
    pub open spec fn advance_spec(self, n: int) -> State<'a> {
        State { offset: (self.offset + n) as usize, ..self }
    }

    /// Whether the unconsumed input begins with `needle`.
    pub open spec fn looking_at(&self, needle: Seq<u8>) -> bool {
        needle.is_prefix_of(self.remaining())
    }

    /// This state continues `earlier`: same buffer, cursor not moved back.
    pub open spec fn continues(&self, earlier: State<'a>) -> bool {
        &&& self.wf()
        &&& self.original_bytes == earlier.original_bytes
        &&& earlier.offset <= self.offset
    }

    /// The state at the start of `bytes`.
    pub fn new(bytes: &'a [u8]) -> (s: State<'a>)
        requires
            bytes@.len() <= MAX_INPUT_LEN,
        ensures
            s.wf(),
            s.original_bytes == bytes,
            s.offset == 0,
            s.line_start.offset == 0,
            s.line_start_after_whitespace.offset == 0,
    {
        State {
            original_bytes: bytes,
            offset: 0,
            line_start: Position::zero(),
            line_start_after_whitespace: Position::zero(),
        }
    }

    /// The whole input, from the start of the file.
    pub fn original_bytes(&self) -> (b: &'a [u8])
        ensures
            b == self.original_bytes,
    {
        self.original_bytes
    }

    /// The input from the cursor on.
    pub fn bytes(&self) -> (b: &'a [u8])
        requires
            self.wf(),
        ensures
            b@ == self.remaining(),
    {
        vstd::slice::slice_subrange(self.original_bytes, self.offset, self.original_bytes.len())
    }

    pub fn pos(&self) -> (p: Position)
        requires
            self.wf(),
        ensures
            p == self.pos_spec(),
            p.offset == self.offset,
    {
        Position::new(self.offset as u32)
    }

    pub fn column(&self) -> (c: u32)
        requires
            self.wf(),
        ensures
            c == self.column_spec(),
    {
        self.pos().offset - self.line_start.offset
    }

    pub fn line_indent(&self) -> (c: u32)
        requires
            self.wf(),
        ensures
            c == self.line_indent_spec(),
    {
        self.line_start_after_whitespace.offset - self.line_start.offset
    }

    /// Whether every byte has been consumed.
    pub fn has_reached_end(&self) -> (b: bool)
        requires
            self.wf(),
        ensures
            b == (self.remaining().len() == 0),
    {
        self.offset == self.original_bytes.len()
    }

    /// Moves the cursor `offset` bytes on. The bytes passed over hold no newline,
    /// so the line markers stay.
    pub fn advance(self, offset: usize) -> (s: State<'a>)
        requires
            self.wf(),
            offset <= self.remaining().len(),
        ensures
            s == self.advance_spec(offset as int),
            s.continues(self),
            s.remaining() == self.remaining().skip(offset as int),
    {
        let s = State {
            original_bytes: self.original_bytes,
            offset: self.offset + offset,
            line_start: self.line_start,
            line_start_after_whitespace: self.line_start_after_whitespace,
        };
        assert(s.remaining() =~= self.remaining().skip(offset as int));
        s
    }

    /// Moves the cursor over one newline byte: the next line starts at the new cursor.
    pub fn advance_newline(self) -> (s: State<'a>)
        requires
            self.wf(),
            1 <= self.remaining().len(),
        ensures
            s.continues(self),
            s.offset == self.offset + 1,
            s.line_start == s.pos_spec(),
            s.line_start_after_whitespace == s.pos_spec(),
    {
        let offset = self.offset + 1;
        let start = Position::new(offset as u32);
        State {
            original_bytes: self.original_bytes,
            offset,
            line_start: start,
            line_start_after_whitespace: start,
        }
    }

    /// Records the cursor as the start of the first token of the current line.
    pub fn mark_current_indent(self) -> (s: State<'a>)
        requires
            self.wf(),
        ensures
            s.continues(self),
            s.offset == self.offset,
            s.line_start == self.line_start,
            s.line_start_after_whitespace == self.pos_spec(),
    {
        let here = self.pos();
        State {
            original_bytes: self.original_bytes,
            offset: self.offset,
            line_start: self.line_start,
            line_start_after_whitespace: here,
        }
    }

    /// Whether the unconsumed input begins with `needle`.
    pub fn starts_with(&self, needle: &[u8]) -> (b: bool)
        requires
            self.wf(),
        ensures
            b == self.looking_at(needle@),
    {
        let bytes = self.bytes();
        if needle.len() > bytes.len() {
            return false;
        }
        let mut i: usize = 0;
        while i < needle.len()
            invariant
                i <= needle@.len() <= bytes@.len(),
                bytes@ == self.remaining(),
                forall|k: int| 0 <= k < i ==> needle@[k] == bytes@[k],
            decreases needle@.len() - i,
        {
            if needle[i] != bytes[i] {
                assert(bytes@.subrange(0, needle@.len() as int)[i as int] == bytes@[i as int]);
                return false;
            }
            i += 1;
        }
        assert(needle@ =~= bytes@.subrange(0, needle@.len() as int));
        true
    }
}

} // verus!
