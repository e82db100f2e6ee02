//! Source positions, spans, and values annotated with the span they came from.
use vstd::prelude::*;

verus! {

/// A byte offset into the source buffer.
#[derive(Debug, Clone, Copy, PartialEq, Eq, Structural, Hash)]
pub struct Position {
    pub offset: u32,
}

impl Position {
    /// The position of the first byte of the buffer.
    pub fn zero() -> (p: Position)
        ensures
            p.offset == 0,
    {
        Position { offset: 0 }
    }

    pub fn new(offset: u32) -> (p: Position)
        ensures
            p.offset == offset,
    {
        Position { offset }
    }

    /// The position `count` bytes further on.
    pub fn bump_column(self, count: u32) -> (p: Position)
        requires
            self.offset + count <= u32::MAX,
        ensures
            p.offset == self.offset + count,
    {
        Position { offset: self.offset + count }
    }

    /// The offset as an index into the buffer.
    pub fn byte_offset(&self) -> (i: usize)
        ensures
            i == self.offset,
    {
        self.offset as usize
    }
}

/// The half-open span `[start, end)` of the source buffer.
#[derive(Debug, Clone, Copy, PartialEq, Eq, Structural, Hash)]
pub struct Region {
    pub start: Position,
    pub end: Position,
}

impl Region {
    /// A region never ends before it starts; it may be empty.
    pub open spec fn wf(&self) -> bool {
        self.start.offset <= self.end.offset
    }

    /// The offsets that lie inside the region.
    pub open spec fn covers(&self, offset: int) -> bool {
        self.start.offset <= offset < self.end.offset
    }

    /// The empty region at the start of the buffer.
    pub fn zero() -> (r: Region)
        ensures
            r.start.offset == 0,
            r.end.offset == 0,
            r.wf(),
    {
        Region { start: Position::zero(), end: Position::zero() }
    }

    pub fn new(start: Position, end: Position) -> (r: Region)
        requires
            start.offset <= end.offset,
        ensures
            r.start == start,
            r.end == end,
            r.wf(),
    {
        Region { start, end }
    }

    /// The region from `start` up to `end`.
    pub fn between(start: Position, end: Position) -> (r: Region)
        requires
            start.offset <= end.offset,
        ensures
            r.start == start,
            r.end == end,
            r.wf(),
    {
        Region::new(start, end)
    }

    /// The region that reaches from the start of `start` to the end of `end`.
    pub fn span_across(start: &Region, end: &Region) -> (r: Region)
        requires
            start.start.offset <= end.end.offset,
        ensures
            r.start == start.start,
            r.end == end.end,
            r.wf(),
    {
        Region { start: start.start, end: end.end }
    }

    pub fn start(&self) -> (p: Position)
        ensures
            p == self.start,
    {
        self.start
    }

    pub fn end(&self) -> (p: Position)
        ensures
            p == self.end,
    {
        self.end
    }

    /// Whether the region holds no byte.
    pub fn is_empty(&self) -> (b: bool)
        ensures
            b == (self.start.offset == self.end.offset),
    {
        self.start.offset == self.end.offset
    }

    /// The number of bytes in the region.
    pub fn len(&self) -> (n: u32)
        requires
            self.wf(),
        ensures
            n == self.end.offset - self.start.offset,
    {
        self.end.offset - self.start.offset
    }

    /// Whether `other` lies wholly inside this region.
    pub fn contains(&self, other: &Region) -> (b: bool)
        ensures
            b == (self.start.offset <= other.start.offset && other.end.offset <= self.end.offset),
    {
        self.start.offset <= other.start.offset && self.end.offset >= other.end.offset
    }
}

/// A value together with the span it was parsed from.
#[derive(Debug, Clone, Copy, PartialEq, Eq, Hash)]
pub struct Loc<T> {
    pub region: Region,
    pub value: T,
}

impl<T> Loc<T> {
    pub fn new(start: u32, end: u32, value: T) -> (l: Loc<T>)
        requires
            start <= end,
        ensures
            l.region.start.offset == start,
            l.region.end.offset == end,
            l.value == value,
    {
        Loc { region: Region::new(Position::new(start), Position::new(end)), value }
    }

    pub fn at(region: Region, value: T) -> (l: Loc<T>)
        ensures
            l.region == region,
            l.value == value,
    {
        Loc { region, value }
    }

    pub fn at_zero(value: T) -> (l: Loc<T>)
        ensures
            l.region.start.offset == 0,
            l.region.end.offset == 0,
            l.value == value,
    {
        Loc { region: Region::zero(), value }
    }

    /// The same span around another value.
    pub fn with_value<U>(&self, value: U) -> (l: Loc<U>)
        ensures
            l.region == self.region,
            l.value == value,
    {
        Loc { region: self.region, value }
    }
}

} // verus!
