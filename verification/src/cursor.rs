//! Finding the declaration or definition that the item under a cursor is, or
//! refers to.

use vstd::prelude::*;
use crate::ast::{Declaration, Designator, InterfaceDeclaration};
use crate::search::{answer, followed_by, guard, run, sequence, trace, Hook, Plan, SearchResult, SearchState, Searcher};
use crate::source::{Ident, Position, Source, SrcPos, WithRef};

verus! {

/// Search for reference to declaration/definition at cursor
pub struct ItemAtCursor {
    source: Source,
    cursor: Position,
}

impl View for ItemAtCursor {
    type V = ItemAtCursor;

    open spec fn view(&self) -> ItemAtCursor {
        *self
    }
}

impl ItemAtCursor {
    /// The file the cursor is in.
    pub closed spec fn spec_source(self) -> Source {
        self.source
    }

    /// Where the cursor is.
    pub closed spec fn spec_cursor(self) -> Position {
        self.cursor
    }

    /// The cursor is the gap between character `cursor` and `cursor + 1`, so
    /// it touches a span that ends just before it as well as one that starts
    /// just after it.
    pub open spec fn spec_is_inside(self, pos: SrcPos) -> bool {
        pos.start.spec_at_or_before(self.spec_cursor()) && self.spec_cursor().spec_at_or_before(pos.end)
    }

    pub fn new(source: &Source, cursor: Position) -> (c: ItemAtCursor)
        ensures
            c.spec_source() == *source,
            c.spec_cursor() == cursor,
    {
        ItemAtCursor { source: *source, cursor }
    }

    fn is_inside(&self, pos: &SrcPos) -> (r: bool)
        ensures
            r == self.spec_is_inside(*pos),
    {
        // cursor is the gap between character cursor and cursor + 1
        // Thus cursor will match character cursor and cursor + 1
        pos.start().at_or_before(&self.cursor) && self.cursor.at_or_before(&pos.end())
    }
}

impl Searcher<SrcPos> for ItemAtCursor {
    open spec fn on_declaration(s: ItemAtCursor, decl: Declaration) -> (ItemAtCursor, SearchState<SrcPos>) {
        (s, SearchState::NotFinished)
    }

    open spec fn on_interface_declaration(s: ItemAtCursor, decl: InterfaceDeclaration) -> (ItemAtCursor, SearchState<SrcPos>) {
        (s, SearchState::NotFinished)
    }

    /// A part of the tree that does not touch the cursor holds nothing to
    /// find.
    open spec fn on_with_pos(s: ItemAtCursor, pos: SrcPos) -> (ItemAtCursor, SearchState<SrcPos>) {
        if s.spec_is_inside(pos) {
            (s, SearchState::NotFinished)
        } else {
            (s, SearchState::Finished(SearchResult::NotFound))
        }
    }

    /// A declaration at the cursor is the item found.
    open spec fn on_decl_pos(s: ItemAtCursor, pos: SrcPos) -> (ItemAtCursor, SearchState<SrcPos>) {
        if s.spec_is_inside(pos) {
            (s, SearchState::Finished(SearchResult::Found(pos)))
        } else {
            (s, SearchState::NotFinished)
        }
    }

    /// A reference at the cursor ends the search: with the declaration it
    /// refers to, when that is known.
    open spec fn on_pos_with_ref(s: ItemAtCursor, pos: SrcPos, reference: Option<SrcPos>) -> (ItemAtCursor, SearchState<SrcPos>) {
        if !s.spec_is_inside(pos) {
            (s, SearchState::Finished(SearchResult::NotFound))
        } else {
            match reference {
                Some(r) => (s, SearchState::Finished(SearchResult::Found(r))),
                None => (s, SearchState::Finished(SearchResult::NotFound)),
            }
        }
    }

    /// A designator at the cursor is answered as a reference at its position.
    open spec fn on_designator_ref(s: ItemAtCursor, pos: SrcPos, designator: WithRef<Designator>) -> (ItemAtCursor, SearchState<SrcPos>) {
        Self::on_pos_with_ref(s, pos, designator.reference)
    }

    /// An identifier at the cursor is answered as a reference at its position.
    open spec fn on_ident_ref(s: ItemAtCursor, ident: WithRef<Ident>) -> (ItemAtCursor, SearchState<SrcPos>) {
        Self::on_pos_with_ref(s, ident.item.pos, ident.reference)
    }

    /// Design units in other files hold nothing to find.
    open spec fn on_source(s: ItemAtCursor, source: Source) -> (ItemAtCursor, SearchState<SrcPos>) {
        if source == s.spec_source() {
            (s, SearchState::NotFinished)
        } else {
            (s, SearchState::Finished(SearchResult::NotFound))
        }
    }

    fn search_declaration(&mut self, decl: &Declaration) -> (r: SearchState<SrcPos>) {
        SearchState::NotFinished
    }

    fn search_interface_declaration(&mut self, decl: &InterfaceDeclaration) -> (r: SearchState<SrcPos>) {
        SearchState::NotFinished
    }

    fn search_with_pos(&mut self, pos: &SrcPos) -> (r: SearchState<SrcPos>) {
        // cursor is the gap between character cursor and cursor + 1
        // Thus cursor will match character cursor and cursor + 1
        if self.is_inside(pos) {
            SearchState::NotFinished
        } else {
            SearchState::Finished(SearchResult::NotFound)
        }
    }

    fn search_decl_pos(&mut self, pos: &SrcPos) -> (r: SearchState<SrcPos>) {
        if self.is_inside(pos) {
            SearchState::Finished(SearchResult::Found(*pos))
        } else {
            SearchState::NotFinished
        }
    }

    fn search_pos_with_ref<U>(&mut self, pos: &SrcPos, with_ref: &WithRef<U>) -> (r: SearchState<SrcPos>) {
        if !self.is_inside(pos) {
            SearchState::Finished(SearchResult::NotFound)
        } else if let Some(reference) = &with_ref.reference {
            SearchState::Finished(SearchResult::Found(*reference))
        } else {
            SearchState::Finished(SearchResult::NotFound)
        }
    }

    fn search_designator_ref(&mut self, pos: &SrcPos, designator: &WithRef<Designator>) -> (r: SearchState<SrcPos>) {
        self.search_pos_with_ref(pos, designator)
    }

    fn search_ident_ref(&mut self, ident: &WithRef<Ident>) -> (r: SearchState<SrcPos>) {
        self.search_pos_with_ref(&ident.item.pos, ident)
    }

    // Assume source is searched first to filter out design units in other files
    fn search_source(&mut self, source: &Source) -> (r: SearchState<SrcPos>) {
        if *source == self.source {
            SearchState::NotFinished
        } else {
            SearchState::Finished(SearchResult::NotFound)
        }
    }
}

/// What the cursor search can find at a hook: the position of a declaration
/// that touches the cursor, or the declaration referred to from a position
/// that touches the cursor.
pub open spec fn found_at(c: ItemAtCursor, h: Hook, item: SrcPos) -> bool {
    match h {
        Hook::DeclPos(pos) => pos == item && c.spec_is_inside(pos),
        Hook::DesignatorRef(pos, designator) => designator.reference == Some(item) && c.spec_is_inside(pos),
        Hook::IdentRef(ident) => ident.reference == Some(item) && c.spec_is_inside(ident.item.pos),
        _ => false,
    }
}

/// Searching for the item at a cursor never changes the searcher.
pub proof fn lemma_cursor_search_keeps_searcher(p: Plan, c: ItemAtCursor)
    ensures
        run::<SrcPos, ItemAtCursor>(p, c).0 == c,
    decreases p,
{
    match p {
        Plan::Nil => {},
        Plan::Ask(h) => {},
        Plan::Guard(h, q) => {
            lemma_cursor_search_keeps_searcher(*q, c);
        },
        Plan::Then(a, b) => {
            lemma_cursor_search_keeps_searcher(*a, c);
            lemma_cursor_search_keeps_searcher(*b, c);
        },
    }
}

/// Whatever the search for the item at a cursor finds was found at the last
/// hook that the search reached: a declaration that touches the cursor, or a
/// reference that touches the cursor, to the declaration found.
pub proof fn lemma_cursor_finds_item_at_cursor(p: Plan, c: ItemAtCursor, item: SrcPos)
    requires
        run::<SrcPos, ItemAtCursor>(p, c).1 == SearchResult::Found(item),
    ensures
        trace::<SrcPos, ItemAtCursor>(p, c).len() > 0,
        found_at(c, trace::<SrcPos, ItemAtCursor>(p, c).last(), item),
    decreases p,
{
    match p {
        Plan::Nil => {},
        Plan::Ask(h) => {},
        Plan::Guard(h, q) => {
            let (s1, st) = answer::<SrcPos, ItemAtCursor>(c, h);
            if st is NotFinished {
                assert(s1 == c);
                lemma_cursor_finds_item_at_cursor(*q, c, item);
            }
        },
        Plan::Then(a, b) => {
            lemma_cursor_search_keeps_searcher(*a, c);
            if run::<SrcPos, ItemAtCursor>(*a, c).1 is Found {
                lemma_cursor_finds_item_at_cursor(*a, c, item);
            } else {
                lemma_cursor_finds_item_at_cursor(*b, c, item);
            }
        },
    }
}

/// Searching again with the same cursor searcher gives the same answer.
pub proof fn lemma_cursor_search_repeats(p: Plan, c: ItemAtCursor)
    ensures
        run::<SrcPos, ItemAtCursor>(p, run::<SrcPos, ItemAtCursor>(p, c).0) == run::<SrcPos, ItemAtCursor>(p, c),
{
    lemma_cursor_search_keeps_searcher(p, c);
}

/// What the search for the item at cursor `c` finds when it carries out plan
/// `p`.
pub open spec fn cursor_finds(p: Plan, c: ItemAtCursor) -> SearchResult<SrcPos> {
    run::<SrcPos, ItemAtCursor>(p, c).1
}

/// What the first of the plans that finds something finds, when each is
/// searched at cursor `c`; nothing when none does.
pub open spec fn first_found(ps: Seq<Plan>, c: ItemAtCursor) -> SearchResult<SrcPos>
    decreases ps.len(),
{
    if ps.len() == 0 {
        SearchResult::NotFound
    } else {
        match cursor_finds(ps[0], c) {
            SearchResult::Found(item) => SearchResult::Found(item),
            SearchResult::NotFound => first_found(ps.drop_first(), c),
        }
    }
}

/// At a cursor, a plan followed by another finds what the first finds, and
/// otherwise what the second finds.
pub proof fn lemma_cursor_followed_by(a: Plan, b: Plan, c: ItemAtCursor)
    ensures
        cursor_finds(followed_by(a, b), c) == match cursor_finds(a, c) {
            SearchResult::Found(item) => SearchResult::Found(item),
            SearchResult::NotFound => cursor_finds(b, c),
        },
{
    lemma_cursor_search_keeps_searcher(a, c);
}

/// At a cursor, plans carried out one after the other find what the first of
/// them that finds something finds.
pub proof fn lemma_cursor_sequence(ps: Seq<Plan>, c: ItemAtCursor)
    ensures
        cursor_finds(sequence(ps), c) == first_found(ps, c),
    decreases ps.len(),
{
    if ps.len() > 0 {
        lemma_cursor_sequence(ps.drop_first(), c);
        lemma_cursor_followed_by(ps[0], sequence(ps.drop_first()), c);
    }
}

/// A part of the tree that is asked about its source file first, as every
/// design unit is, finds nothing when it is in another file than the cursor.
pub proof fn lemma_cursor_skips_other_files(p: Plan, source: Source, c: ItemAtCursor)
    requires
        source != c.spec_source(),
    ensures
        run::<SrcPos, ItemAtCursor>(guard(Hook::Source(source), p), c) == (c, SearchResult::<SrcPos>::NotFound),
{
}

/// A part of the tree that is asked about its position first, and does not
/// touch the cursor, finds nothing.
pub proof fn lemma_cursor_skips_parts_away_from_cursor(p: Plan, pos: SrcPos, c: ItemAtCursor)
    requires
        !c.spec_is_inside(pos),
    ensures
        run::<SrcPos, ItemAtCursor>(guard(Hook::WithPos(pos), p), c) == (c, SearchResult::<SrcPos>::NotFound),
{
}

} // verus!
