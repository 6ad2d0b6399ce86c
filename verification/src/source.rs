//! Positions in source files.

use vstd::prelude::*;

verus! {

/// A place in a source file: a zero-based line and a zero-based character
/// within that line.
#[derive(Clone, Copy, Debug, PartialEq, Eq, Structural)]
pub struct Position {
    pub line: u64,
    pub character: u64,
}

impl Position {
    /// Positions are ordered by line first, then by character.
    pub open spec fn spec_at_or_before(self, other: Position) -> bool {
        self.line < other.line || (self.line == other.line && self.character <= other.character)
    }

    pub fn new(line: u64, character: u64) -> (p: Position)
        ensures
            p.line == line,
            p.character == character,
    {
        Position { line, character }
    }

    /// Whether `self` comes before `other` in the file, or is the same place.
    pub fn at_or_before(&self, other: &Position) -> (r: bool)
        ensures
            r == self.spec_at_or_before(*other),
    {
        self.line < other.line || (self.line == other.line && self.character <= other.character)
    }
}

/// A source file, known by its identity: two sources are the same file
/// exactly when their identifiers are equal.
#[derive(Clone, Copy, Debug, PartialEq, Eq, Structural)]
pub struct Source {
    pub file_id: u64,
}

impl Source {
    pub fn new(file_id: u64) -> (s: Source)
        ensures
            s.file_id == file_id,
    {
        Source { file_id }
    }
}

/// A span of characters in a source file, from `start` to `end`.
#[derive(Clone, Copy, Debug, PartialEq, Eq, Structural)]
pub struct SrcPos {
    pub source: Source,
    pub start: Position,
    pub end: Position,
}

impl SrcPos {
    pub fn new(source: Source, start: Position, end: Position) -> (p: SrcPos)
        ensures
            p.source == source,
            p.start == start,
            p.end == end,
    {
        SrcPos { source, start, end }
    }

    pub fn start(&self) -> (p: Position)
        ensures
            p == self.start,
    {
        self.start
    }

    pub fn end(&self) -> (p: Position)
        ensures
            p == self.end,
    {
        self.end
    }

    pub fn source(&self) -> (s: &Source)
        ensures
            *s == self.source,
    {
        &self.source
    }
}

/// An item together with the span of source that it was written in.
pub struct WithPos<T> {
    pub item: T,
    pub pos: SrcPos,
}

impl<T> WithPos<T> {
    pub fn new(item: T, pos: SrcPos) -> (w: WithPos<T>)
        ensures
            w.item == item,
            w.pos == pos,
    {
        WithPos { item, pos }
    }

    pub fn pos(&self) -> (p: &SrcPos)
        ensures
            *p == self.pos,
    {
        &self.pos
    }
}

/// An item that may refer to a declaration, given by the position of that
/// declaration once names have been resolved.
pub struct WithRef<T> {
    pub item: T,
    pub reference: Option<SrcPos>,
}

impl<T> WithRef<T> {
    pub fn new(item: T, reference: Option<SrcPos>) -> (w: WithRef<T>)
        ensures
            w.item == item,
            w.reference == reference,
    {
        WithRef { item, reference }
    }
}

/// An interned name.
#[derive(Clone, Copy, Debug, PartialEq, Eq, Structural)]
pub struct Symbol {
    pub id: u64,
}

/// An identifier written at a position.
pub type Ident = WithPos<Symbol>;

} // verus!
