//! Finding every reference to a declaration.

use vstd::prelude::*;
use crate::ast::{Declaration, Designator, InterfaceDeclaration};
use crate::cursor::{found_at, lemma_cursor_finds_item_at_cursor, ItemAtCursor};
use crate::search::{answer, followed_by, guard, lemma_trace_in_visits, run, sequence, trace, visits, Hook, Plan, Search, SearchResult, SearchState, Searcher};
use crate::source::{Ident, Source, SrcPos, WithRef};

verus! {

/// Search for all reference to declaration/defintion
pub struct FindAllReferences {
    decl_pos: SrcPos,
    references: Vec<SrcPos>,
}

/// What a [`FindAllReferences`] holds: the declaration whose references are
/// looked for, and the references found so far.
pub struct FindAllReferencesView {
    pub decl_pos: SrcPos,
    pub references: Seq<SrcPos>,
}

impl View for FindAllReferences {
    type V = FindAllReferencesView;

    closed spec fn view(&self) -> FindAllReferencesView {
        FindAllReferencesView { decl_pos: self.decl_pos, references: self.references@ }
    }
}

/// What the search for references to `decl_pos` collects at a hook: the
/// declaration itself, where its position is met, and each position that
/// refers to it.
pub open spec fn references_at(h: Hook, decl_pos: SrcPos) -> Seq<SrcPos> {
    match h {
        Hook::DeclPos(pos) => if pos == decl_pos {
            seq![pos]
        } else {
            Seq::empty()
        },
        Hook::DesignatorRef(pos, designator) => if designator.reference == Some(decl_pos) {
            seq![pos]
        } else {
            Seq::empty()
        },
        Hook::IdentRef(ident) => if ident.reference == Some(decl_pos) {
            seq![ident.item.pos]
        } else {
            Seq::empty()
        },
        _ => Seq::empty(),
    }
}

/// What the search for references to `decl_pos` collects at the hooks, in
/// order.
pub open spec fn references_in(hooks: Seq<Hook>, decl_pos: SrcPos) -> Seq<SrcPos>
    decreases hooks.len(),
{
    if hooks.len() == 0 {
        Seq::empty()
    } else {
        references_at(hooks[0], decl_pos) + references_in(hooks.drop_first(), decl_pos)
    }
}

/// The positions that the search for references to `decl_pos` collects
/// when it carries out plan `p`.
pub open spec fn references_of(p: Plan, decl_pos: SrcPos) -> Seq<SrcPos> {
    references_in(visits(p), decl_pos)
}

/// The positions collected by each of the plans, one plan after the other.
pub open spec fn concat_references(ps: Seq<Plan>, decl_pos: SrcPos) -> Seq<SrcPos>
    decreases ps.len(),
{
    if ps.len() == 0 {
        Seq::empty()
    } else {
        references_of(ps[0], decl_pos) + concat_references(ps.drop_first(), decl_pos)
    }
}

impl FindAllReferences {
    pub fn new(decl_pos: &SrcPos) -> (f: FindAllReferences)
        ensures
            f@.decl_pos == *decl_pos,
            f@.references == Seq::<SrcPos>::empty(),
    {
        FindAllReferences { decl_pos: *decl_pos, references: Vec::new() }
    }

    /// Every position in `searchable` that declares, or refers to, the
    /// declaration looked for, in the order of the search, after the
    /// references found before.
    pub fn search<X: Search<()>>(self, searchable: &X) -> (r: Vec<SrcPos>)
        ensures
            r@ == self@.references + references_in(visits(searchable.plan()), self@.decl_pos),
    {
        let mut searcher = self;
        let _unnused = searchable.search(&mut searcher);
        proof {
            lemma_find_all_references_collects(searchable.plan(), self@);
        }
        searcher.references
    }
}

impl Searcher<()> for FindAllReferences {
    open spec fn on_declaration(s: FindAllReferencesView, decl: Declaration) -> (FindAllReferencesView, SearchState<()>) {
        (s, SearchState::NotFinished)
    }

    open spec fn on_interface_declaration(s: FindAllReferencesView, decl: InterfaceDeclaration) -> (FindAllReferencesView, SearchState<()>) {
        (s, SearchState::NotFinished)
    }

    open spec fn on_with_pos(s: FindAllReferencesView, pos: SrcPos) -> (FindAllReferencesView, SearchState<()>) {
        (s, SearchState::NotFinished)
    }

    open spec fn on_source(s: FindAllReferencesView, source: Source) -> (FindAllReferencesView, SearchState<()>) {
        (s, SearchState::NotFinished)
    }

    /// The declaration itself counts as a reference.
    open spec fn on_decl_pos(s: FindAllReferencesView, pos: SrcPos) -> (FindAllReferencesView, SearchState<()>) {
        if pos == s.decl_pos {
            (FindAllReferencesView { decl_pos: s.decl_pos, references: s.references.push(pos) }, SearchState::NotFinished)
        } else {
            (s, SearchState::NotFinished)
        }
    }

    /// A position that refers to the declaration is a reference.
    open spec fn on_pos_with_ref(s: FindAllReferencesView, pos: SrcPos, reference: Option<SrcPos>) -> (FindAllReferencesView, SearchState<()>) {
        if reference == Some(s.decl_pos) {
            (FindAllReferencesView { decl_pos: s.decl_pos, references: s.references.push(pos) }, SearchState::NotFinished)
        } else {
            (s, SearchState::NotFinished)
        }
    }

    /// A designator that refers to the declaration is a reference.
    open spec fn on_designator_ref(s: FindAllReferencesView, pos: SrcPos, designator: WithRef<Designator>) -> (FindAllReferencesView, SearchState<()>) {
        Self::on_pos_with_ref(s, pos, designator.reference)
    }

    /// An identifier that refers to the declaration is a reference.
    open spec fn on_ident_ref(s: FindAllReferencesView, ident: WithRef<Ident>) -> (FindAllReferencesView, SearchState<()>) {
        Self::on_pos_with_ref(s, ident.item.pos, ident.reference)
    }

    fn search_declaration(&mut self, decl: &Declaration) -> (r: SearchState<()>) {
        SearchState::NotFinished
    }

    fn search_interface_declaration(&mut self, decl: &InterfaceDeclaration) -> (r: SearchState<()>) {
        SearchState::NotFinished
    }

    fn search_with_pos(&mut self, pos: &SrcPos) -> (r: SearchState<()>) {
        SearchState::NotFinished
    }

    fn search_source(&mut self, source: &Source) -> (r: SearchState<()>) {
        SearchState::NotFinished
    }

    fn search_decl_pos(&mut self, decl_pos: &SrcPos) -> (r: SearchState<()>) {
        if *decl_pos == self.decl_pos {
            self.references.push(*decl_pos);
        }
        SearchState::NotFinished
    }

    fn search_pos_with_ref<U>(&mut self, pos: &SrcPos, with_ref: &WithRef<U>) -> (r: SearchState<()>) {
        if let Some(reference) = &with_ref.reference {
            if *reference == self.decl_pos {
                self.references.push(*pos);
            }
        };
        SearchState::NotFinished
    }

    fn search_designator_ref(&mut self, pos: &SrcPos, designator: &WithRef<Designator>) -> (r: SearchState<()>) {
        self.search_pos_with_ref(pos, designator)
    }

    fn search_ident_ref(&mut self, ident: &WithRef<Ident>) -> (r: SearchState<()>) {
        if let Some(reference) = &ident.reference {
            if *reference == self.decl_pos {
                self.references.push(*ident.item.pos());
            }
        };
        SearchState::NotFinished
    }
}

proof fn lemma_references_in_append(a: Seq<Hook>, b: Seq<Hook>, decl_pos: SrcPos)
    ensures
        references_in(a + b, decl_pos) == references_in(a, decl_pos) + references_in(b, decl_pos),
    decreases a.len(),
{
    if a.len() == 0 {
        assert(a + b =~= b);
    } else {
        lemma_references_in_append(a.drop_first(), b, decl_pos);
        assert((a + b).drop_first() =~= a.drop_first() + b);
    }
}

proof fn lemma_references_at_hook(h: Hook, s: FindAllReferencesView)
    ensures
        answer::<(), FindAllReferences>(s, h).1 == SearchState::<()>::NotFinished,
        answer::<(), FindAllReferences>(s, h).0.decl_pos == s.decl_pos,
        answer::<(), FindAllReferences>(s, h).0.references == s.references + references_in(seq![h], s.decl_pos),
{
    assert(seq![h].drop_first() =~= Seq::<Hook>::empty());
    assert(references_in(Seq::<Hook>::empty(), s.decl_pos) == Seq::<SrcPos>::empty());
    assert(references_at(h, s.decl_pos) + Seq::<SrcPos>::empty() =~= references_at(h, s.decl_pos));
    assert(references_in(seq![h], s.decl_pos) =~= references_at(h, s.decl_pos));
    match h {
        Hook::DeclPos(pos) => {
            assert(s.references.push(pos) =~= s.references + seq![pos]);
            assert(s.references + Seq::<SrcPos>::empty() =~= s.references);
        },
        Hook::DesignatorRef(pos, _) => {
            assert(s.references.push(pos) =~= s.references + seq![pos]);
            assert(s.references + Seq::<SrcPos>::empty() =~= s.references);
        },
        Hook::IdentRef(ident) => {
            assert(s.references.push(ident.item.pos) =~= s.references + seq![ident.item.pos]);
            assert(s.references + Seq::<SrcPos>::empty() =~= s.references);
        },
        _ => {
            assert(s.references + Seq::<SrcPos>::empty() =~= s.references);
        },
    }
}

/// The search for references to a declaration never stops early: it finds
/// no result, keeps the declaration it looks for, and adds to the references
/// found before every position, met anywhere in the tree in the order of the
/// search, that declares or refers to that declaration.
pub proof fn lemma_find_all_references_collects(p: Plan, s: FindAllReferencesView)
    ensures
        run::<(), FindAllReferences>(p, s).1 == SearchResult::<()>::NotFound,
        run::<(), FindAllReferences>(p, s).0.decl_pos == s.decl_pos,
        run::<(), FindAllReferences>(p, s).0.references == s.references + references_in(visits(p), s.decl_pos),
    decreases p,
{
    match p {
        Plan::Nil => {
            assert(s.references + Seq::<SrcPos>::empty() =~= s.references);
        },
        Plan::Ask(h) => {
            lemma_references_at_hook(h, s);
        },
        Plan::Guard(h, q) => {
            lemma_references_at_hook(h, s);
            let s1 = answer::<(), FindAllReferences>(s, h).0;
            lemma_find_all_references_collects(*q, s1);
            lemma_references_in_append(seq![h], visits(*q), s.decl_pos);
            assert(s.references + references_in(seq![h], s.decl_pos) + references_in(visits(*q), s.decl_pos)
                =~= s.references + (references_in(seq![h], s.decl_pos) + references_in(visits(*q), s.decl_pos)));
        },
        Plan::Then(a, b) => {
            lemma_find_all_references_collects(*a, s);
            let s1 = run::<(), FindAllReferences>(*a, s).0;
            lemma_find_all_references_collects(*b, s1);
            lemma_references_in_append(visits(*a), visits(*b), s.decl_pos);
            assert(s.references + references_in(visits(*a), s.decl_pos) + references_in(visits(*b), s.decl_pos)
                =~= s.references + (references_in(visits(*a), s.decl_pos) + references_in(visits(*b), s.decl_pos)));
        },
    }
}

/// The references collected by a plan followed by another are those of the
/// first, then those of the second.
pub proof fn lemma_references_of_followed_by(a: Plan, b: Plan, decl_pos: SrcPos)
    ensures
        references_of(followed_by(a, b), decl_pos) == references_of(a, decl_pos) + references_of(b, decl_pos),
{
    lemma_references_in_append(visits(a), visits(b), decl_pos);
}

/// The references collected by a single question are those of its hook.
pub proof fn lemma_references_of_ask(h: Hook, decl_pos: SrcPos)
    ensures
        references_of(Plan::Ask(h), decl_pos) == references_at(h, decl_pos),
{
    assert(seq![h].drop_first() =~= Seq::<Hook>::empty());
    assert(references_in(Seq::<Hook>::empty(), decl_pos) == Seq::<SrcPos>::empty());
    assert(references_at(h, decl_pos) + Seq::<SrcPos>::empty() =~= references_at(h, decl_pos));
}

/// The references collected by a guarded plan are those of its hook, then
/// those of the plan it guards: the reference search always goes on.
pub proof fn lemma_references_of_guard(h: Hook, q: Plan, decl_pos: SrcPos)
    ensures
        references_of(guard(h, q), decl_pos) == references_at(h, decl_pos) + references_of(q, decl_pos),
{
    lemma_references_of_ask(h, decl_pos);
    lemma_references_in_append(seq![h], visits(q), decl_pos);
}

/// The references collected by plans carried out one after the other are
/// those of each plan, in order: the reference search never stops early.
pub proof fn lemma_references_of_sequence(ps: Seq<Plan>, decl_pos: SrcPos)
    ensures
        references_of(sequence(ps), decl_pos) == concat_references(ps, decl_pos),
    decreases ps.len(),
{
    if ps.len() > 0 {
        lemma_references_of_sequence(ps.drop_first(), decl_pos);
        lemma_references_of_followed_by(ps[0], sequence(ps.drop_first()), decl_pos);
    }
}

proof fn lemma_references_in_contains(hooks: Seq<Hook>, i: int, decl_pos: SrcPos, pos: SrcPos)
    requires
        0 <= i < hooks.len(),
        references_at(hooks[i], decl_pos).contains(pos),
    ensures
        references_in(hooks, decl_pos).contains(pos),
    decreases hooks.len(),
{
    let here = references_at(hooks[0], decl_pos);
    let rest = references_in(hooks.drop_first(), decl_pos);
    if i == 0 {
        let k = choose|k: int| 0 <= k < here.len() && here[k] == pos;
        assert((here + rest)[k] == pos);
    } else {
        assert(hooks.drop_first()[i - 1] == hooks[i]);
        lemma_references_in_contains(hooks.drop_first(), i - 1, decl_pos, pos);
        let k = choose|k: int| 0 <= k < rest.len() && rest[k] == pos;
        assert((here + rest)[here.len() + k] == pos);
    }
}

/// The two searches agree: when the search for the item at a cursor finds a
/// declaration, the search for all references to that declaration, over the
/// same tree, finds a position that touches the cursor.
pub proof fn lemma_item_at_cursor_is_among_its_references(p: Plan, c: ItemAtCursor, item: SrcPos)
    requires
        run::<SrcPos, ItemAtCursor>(p, c).1 == SearchResult::Found(item),
    ensures
        exists|pos: SrcPos|
            #[trigger] references_in(visits(p), item).contains(pos) && c.spec_is_inside(pos),
{
    lemma_cursor_finds_item_at_cursor(p, c, item);
    let t = trace::<SrcPos, ItemAtCursor>(p, c);
    let h = t.last();
    lemma_trace_in_visits::<SrcPos, ItemAtCursor>(p, c, t.len() - 1);
    let i = choose|i: int| 0 <= i < visits(p).len() && visits(p)[i] == h;
    let pos = match h {
        Hook::DesignatorRef(pos, _) => pos,
        Hook::IdentRef(ident) => ident.item.pos,
        _ => item,
    };
    assert(references_at(h, item)[0] == pos);
    lemma_references_in_contains(visits(p), i, item, pos);
}

} // verus!
