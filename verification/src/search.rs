//! Searching a syntax tree with a searcher that is asked about the places the
//! search passes.
//!
//! A search walks a tree in a fixed order and, at certain places, asks the
//! searcher what to do: go on, or stop with a result. What a search of a tree
//! does is described by its [`Plan`]: the questions it asks and how their
//! answers decide what happens next. [`run`] gives the meaning of a plan for
//! any searcher, and every search in this crate is proved to do what [`run`]
//! says of its plan.

use vstd::prelude::*;
use crate::ast::{Declaration, Designator, InterfaceDeclaration};
use crate::source::{Ident, Source, SrcPos, WithRef};

pub use SearchResult::{Found, NotFound};
pub use SearchState::{Finished, NotFinished};

verus! {

/// The outcome of a search.
#[must_use]
pub enum SearchResult<T> {
    Found(T),
    NotFound,
}

/// A searcher's answer to a question: stop with a result, or go on.
#[must_use]
pub enum SearchState<T> {
    Finished(SearchResult<T>),
    NotFinished,
}

impl<T> SearchState<T> {
    /// The result of a search that stops at this answer and finds nothing
    /// when told to go on.
    pub open spec fn spec_or_not_found(self) -> SearchResult<T> {
        match self {
            SearchState::Finished(result) => result,
            SearchState::NotFinished => SearchResult::NotFound,
        }
    }

    /// The result carried by a finished answer; for an answer to go on, the
    /// result of `nested_fun`.
    pub fn or_else(self, nested_fun: impl FnOnce() -> SearchResult<T>) -> (r: SearchResult<T>)
        requires
            self is NotFinished ==> call_requires(nested_fun, ()),
        ensures
            match self {
                SearchState::Finished(result) => r == result,
                SearchState::NotFinished => call_ensures(nested_fun, (), r),
            },
    {
        match self {
            SearchState::Finished(result) => result,
            SearchState::NotFinished => nested_fun(),
        }
    }

    /// The result carried by a finished answer, and `NotFound` for an answer
    /// to go on.
    pub fn or_not_found(self) -> (r: SearchResult<T>)
        ensures
            r == self.spec_or_not_found(),
    {
        let r = self.or_else(|| -> (r: SearchResult<T>)
            ensures
                r is NotFound,
            { SearchResult::NotFound });
        r
    }
}

impl<T> vstd::std_specs::convert::FromSpecImpl<SearchResult<T>> for Option<T> {
    open spec fn obeys_from_spec() -> bool {
        true
    }

    open spec fn from_spec(v: SearchResult<T>) -> Option<T> {
        match v {
            SearchResult::Found(value) => Some(value),
            SearchResult::NotFound => None,
        }
    }
}

impl<T> From<SearchResult<T>> for Option<T> {
    fn from(v: SearchResult<T>) -> (r: Option<T>) {
        match v {
            SearchResult::Found(value) => Some(value),
            SearchResult::NotFound => None,
        }
    }
}

/// A place where a search asks its searcher what to do.
pub enum Hook {
    /// A declaration, before anything inside it is searched.
    Declaration(Declaration),
    /// An interface declaration, before anything inside it is searched.
    InterfaceDeclaration(InterfaceDeclaration),
    /// A designator written at a position, which refers to a declaration
    /// when its reference is known.
    DesignatorRef(SrcPos, WithRef<Designator>),
    /// An identifier that refers to a declaration when its reference is
    /// known.
    IdentRef(WithRef<Ident>),
    /// The position where a named entity is declared.
    DeclPos(SrcPos),
    /// The position of a part of the tree, before the part is searched.
    WithPos(SrcPos),
    /// The source file of a design unit, before the unit is searched.
    Source(Source),
}

/// What a search does.
pub enum Plan {
    /// Find nothing.
    Nil,
    /// Ask at a hook: a finished answer gives the result, an answer to go on
    /// finds nothing.
    Ask(Hook),
    /// Ask at a hook: a finished answer gives the result, an answer to go on
    /// carries out the nested plan.
    Guard(Hook, Box<Plan>),
    /// Carry out the first plan; if it found nothing, carry out the second.
    Then(Box<Plan>, Box<Plan>),
}

/// Carry out `a`, then, if it found nothing, `b`.
pub open spec fn followed_by(a: Plan, b: Plan) -> Plan {
    Plan::Then(Box::new(a), Box::new(b))
}

/// Ask at `h`; when told to go on, carry out `p`.
pub open spec fn guard(h: Hook, p: Plan) -> Plan {
    Plan::Guard(h, Box::new(p))
}

/// The plans carried out one after the other, until one of them finds a
/// result.
pub open spec fn sequence(ps: Seq<Plan>) -> Plan
    decreases ps.len(),
{
    if ps.len() == 0 {
        Plan::Nil
    } else {
        followed_by(ps[0], sequence(ps.drop_first()))
    }
}

/// The searcher's answer at a hook, and the searcher afterwards, both given
/// by the searcher's view.
pub open spec fn answer<T, S: Searcher<T>>(s: S::V, h: Hook) -> (S::V, SearchState<T>) {
    match h {
        Hook::Declaration(d) => S::on_declaration(s, d),
        Hook::InterfaceDeclaration(d) => S::on_interface_declaration(s, d),
        Hook::DesignatorRef(pos, designator) => S::on_designator_ref(s, pos, designator),
        Hook::IdentRef(ident) => S::on_ident_ref(s, ident),
        Hook::DeclPos(pos) => S::on_decl_pos(s, pos),
        Hook::WithPos(pos) => S::on_with_pos(s, pos),
        Hook::Source(source) => S::on_source(s, source),
    }
}

/// What carrying out plan `p` with a searcher whose view is `s` gives: the
/// searcher's view afterwards, and the result.
pub open spec fn run<T, S: Searcher<T>>(p: Plan, s: S::V) -> (S::V, SearchResult<T>)
    decreases p,
{
    match p {
        Plan::Nil => (s, SearchResult::NotFound),
        Plan::Ask(h) => {
            let (s1, st) = answer::<T, S>(s, h);
            (s1, st.spec_or_not_found())
        },
        Plan::Guard(h, q) => {
            let (s1, st) = answer::<T, S>(s, h);
            match st {
                SearchState::Finished(r) => (s1, r),
                SearchState::NotFinished => run::<T, S>(*q, s1),
            }
        },
        Plan::Then(a, b) => {
            let (s1, r) = run::<T, S>(*a, s);
            match r {
                SearchResult::Found(_) => (s1, r),
                SearchResult::NotFound => run::<T, S>(*b, s1),
            }
        },
    }
}

/// Every hook of a plan, in the order in which a searcher that always goes on
/// is asked at them.
pub open spec fn visits(p: Plan) -> Seq<Hook>
    decreases p,
{
    match p {
        Plan::Nil => Seq::empty(),
        Plan::Ask(h) => seq![h],
        Plan::Guard(h, q) => seq![h] + visits(*q),
        Plan::Then(a, b) => visits(*a) + visits(*b),
    }
}

/// The hooks that the search asks at when it carries out plan `p` with a
/// searcher whose view is `s`, in order: the parts that a finished answer
/// ends, and the parts after a found result, are not reached.
pub open spec fn trace<T, S: Searcher<T>>(p: Plan, s: S::V) -> Seq<Hook>
    decreases p,
{
    match p {
        Plan::Nil => Seq::empty(),
        Plan::Ask(h) => seq![h],
        Plan::Guard(h, q) => {
            let (s1, st) = answer::<T, S>(s, h);
            match st {
                SearchState::Finished(_) => seq![h],
                SearchState::NotFinished => seq![h] + trace::<T, S>(*q, s1),
            }
        },
        Plan::Then(a, b) => {
            let (s1, r) = run::<T, S>(*a, s);
            match r {
                SearchResult::Found(_) => trace::<T, S>(*a, s),
                SearchResult::NotFound => trace::<T, S>(*a, s) + trace::<T, S>(*b, s1),
            }
        },
    }
}

/// Every hook that a search reaches is a hook of its plan.
pub proof fn lemma_trace_in_visits<T, S: Searcher<T>>(p: Plan, s: S::V, i: int)
    requires
        0 <= i < trace::<T, S>(p, s).len(),
    ensures
        visits(p).contains(trace::<T, S>(p, s)[i]),
    decreases p,
{
    let t = trace::<T, S>(p, s);
    match p {
        Plan::Nil => {},
        Plan::Ask(h) => {
            assert(visits(p)[0] == h);
        },
        Plan::Guard(h, q) => {
            let (s1, st) = answer::<T, S>(s, h);
            if i == 0 {
                assert(visits(p)[0] == h);
            } else {
                assert(st is NotFinished);
                assert(t[i] == trace::<T, S>(*q, s1)[i - 1]);
                lemma_trace_in_visits::<T, S>(*q, s1, i - 1);
                let k = choose|k: int| 0 <= k < visits(*q).len() && visits(*q)[k] == t[i];
                assert(visits(p)[k + 1] == visits(*q)[k]);
            }
        },
        Plan::Then(a, b) => {
            let (s1, r) = run::<T, S>(*a, s);
            let ta = trace::<T, S>(*a, s);
            if i < ta.len() {
                assert(t[i] == ta[i]);
                lemma_trace_in_visits::<T, S>(*a, s, i);
                let k = choose|k: int| 0 <= k < visits(*a).len() && visits(*a)[k] == t[i];
                assert(visits(p)[k] == visits(*a)[k]);
            } else {
                assert(r is NotFound);
                assert(t[i] == trace::<T, S>(*b, s1)[i - ta.len()]);
                lemma_trace_in_visits::<T, S>(*b, s1, i - ta.len());
                let k = choose|k: int| 0 <= k < visits(*b).len() && visits(*b)[k] == t[i];
                assert(visits(p)[visits(*a).len() + k] == visits(*b)[k]);
            }
        },
    }
}

/// Once a part of the tree finds a result, nothing after it is searched: the
/// result, and the searcher, are those of that part.
pub proof fn lemma_found_stops_search<T, S: Searcher<T>>(a: Plan, b: Plan, s: S::V)
    requires
        run::<T, S>(a, s).1 is Found,
    ensures
        run::<T, S>(followed_by(a, b), s) == run::<T, S>(a, s),
{
}

/// A hook answered with a finished search gives that search's result, and
/// what the hook guards is not searched.
pub proof fn lemma_finished_answer_ends_search<T, S: Searcher<T>>(h: Hook, q: Plan, s: S::V)
    requires
        answer::<T, S>(s, h).1 is Finished,
    ensures
        run::<T, S>(guard(h, q), s) == (answer::<T, S>(s, h).0, answer::<T, S>(s, h).1.spec_or_not_found()),
{
}

/// Something that a search asks, at each hook, whether to go on.
///
/// Each question has a spec function that says, in terms of the searcher's
/// view, how the searcher answers and what it becomes; the method that
/// answers is held to it.
///
/// No question has a default answer: a searcher writes every method and
/// every spec function, and a searcher that has nothing to do at a hook
/// answers `NotFinished` there and keeps its view. A default body could not
/// be held to a spec function that an implementation is free to replace.
pub trait Searcher<T>: View + Sized {
    spec fn on_declaration(s: Self::V, decl: Declaration) -> (Self::V, SearchState<T>);

    spec fn on_interface_declaration(s: Self::V, decl: InterfaceDeclaration) -> (Self::V, SearchState<T>);

    spec fn on_pos_with_ref(s: Self::V, pos: SrcPos, reference: Option<SrcPos>) -> (Self::V, SearchState<T>);

    spec fn on_designator_ref(s: Self::V, pos: SrcPos, designator: WithRef<Designator>) -> (Self::V, SearchState<T>);

    spec fn on_ident_ref(s: Self::V, ident: WithRef<Ident>) -> (Self::V, SearchState<T>);

    spec fn on_decl_pos(s: Self::V, pos: SrcPos) -> (Self::V, SearchState<T>);

    spec fn on_with_pos(s: Self::V, pos: SrcPos) -> (Self::V, SearchState<T>);

    spec fn on_source(s: Self::V, source: Source) -> (Self::V, SearchState<T>);

    fn search_declaration(&mut self, decl: &Declaration) -> (r: SearchState<T>)
        ensures
            (final(self)@, r) == Self::on_declaration(old(self)@, *decl),
    ;

    fn search_interface_declaration(&mut self, decl: &InterfaceDeclaration) -> (r: SearchState<T>)
        ensures
            (final(self)@, r) == Self::on_interface_declaration(old(self)@, *decl),
    ;

    /// Search an position that has a reference to a declaration
    fn search_pos_with_ref<U>(&mut self, pos: &SrcPos, with_ref: &WithRef<U>) -> (r: SearchState<T>)
        ensures
            (final(self)@, r) == Self::on_pos_with_ref(old(self)@, *pos, with_ref.reference),
    ;

    /// Search a designator that has a reference to a declaration
    ///
    /// A searcher that has no answer of its own here answers as
    /// `search_pos_with_ref` does, at `pos`.
    fn search_designator_ref(&mut self, pos: &SrcPos, designator: &WithRef<Designator>) -> (r: SearchState<T>)
        ensures
            (final(self)@, r) == Self::on_designator_ref(old(self)@, *pos, *designator),
    ;

    /// Search an identifier that has a reference to a declaration
    ///
    /// A searcher that has no answer of its own here answers as
    /// `search_pos_with_ref` does, at the identifier's position.
    fn search_ident_ref(&mut self, ident: &WithRef<Ident>) -> (r: SearchState<T>)
        ensures
            (final(self)@, r) == Self::on_ident_ref(old(self)@, *ident),
    ;

    /// Search the position of a declaration of a named entity
    fn search_decl_pos(&mut self, pos: &SrcPos) -> (r: SearchState<T>)
        ensures
            (final(self)@, r) == Self::on_decl_pos(old(self)@, *pos),
    ;

    fn search_with_pos(&mut self, pos: &SrcPos) -> (r: SearchState<T>)
        ensures
            (final(self)@, r) == Self::on_with_pos(old(self)@, *pos),
    ;

    fn search_source(&mut self, source: &Source) -> (r: SearchState<T>)
        ensures
            (final(self)@, r) == Self::on_source(old(self)@, *source),
    ;
}

/// Something that can be searched: what its search does is given by its
/// plan.
pub trait Search<T> {
    spec fn plan(&self) -> Plan;

    fn search<S: Searcher<T>>(&self, searcher: &mut S) -> (r: SearchResult<T>)
        ensures
            (final(searcher)@, r) == run::<T, S>(self.plan(), old(searcher)@),
    ;
}

/// The items searched one after the other, until one of them finds a result.
pub open spec fn list_plan<T, V: Search<T>>(items: Seq<V>) -> Plan
    decreases items.len(),
{
    if items.len() == 0 {
        Plan::Nil
    } else {
        followed_by(items[0].plan(), list_plan::<T, V>(items.drop_first()))
    }
}

impl<T, V: Search<T>> Search<T> for Vec<V> {
    open spec fn plan(&self) -> Plan {
        list_plan::<T, V>(self@)
    }

    fn search<S: Searcher<T>>(&self, searcher: &mut S) -> (r: SearchResult<T>) {
        let mut i: usize = 0;
        proof {
            assert(self@.skip(0) =~= self@);
        }
        while i < self.len()
            invariant
                i <= self.len(),
                run::<T, S>(list_plan::<T, V>(self@), old(searcher)@) == run::<T, S>(
                    list_plan::<T, V>(self@.skip(i as int)),
                    searcher@,
                ),
            decreases self.len() - i,
        {
            proof {
                assert(self@.skip(i as int).drop_first() =~= self@.skip(i + 1));
            }
            match self[i].search(searcher) {
                SearchResult::Found(x) => {
                    return SearchResult::Found(x);
                },
                SearchResult::NotFound => {},
            }
            i = i + 1;
        }
        proof {
            assert(self@.skip(i as int) =~= Seq::<V>::empty());
        }
        SearchResult::NotFound
    }
}

impl<T, V: Search<T>> Search<T> for Option<V> {
    open spec fn plan(&self) -> Plan {
        match self {
            Some(v) => v.plan(),
            None => Plan::Nil,
        }
    }

    fn search<S: Searcher<T>>(&self, searcher: &mut S) -> (r: SearchResult<T>) {
        match self {
            Some(v) => v.search(searcher),
            None => SearchResult::NotFound,
        }
    }
}

} // verus!
