//! Searching context clauses and design units.

use vstd::prelude::*;
use crate::ast::{
    ArchitectureUnit, ConfigurationUnit, ContextDeclaration, ContextItem, EntityUnit,
    LibraryClause, PackageBodyUnit, PackageInstanceUnit, PackageUnit,
};
use crate::search::{followed_by, guard, run, Hook, Plan, SearchResult, SearchState, Searcher};
use crate::source::{Ident, WithPos};
use crate::walk_decl::{
    concurrent_statements_plan, declarations_plan, optional_interface_list_plan,
    search_concurrent_statements, search_declarations, search_optional_interface_list,
};
use crate::walk_expr::{names_plan, search_names, search_selected_name, selected_name_plan};

verus! {

/// A name in a library clause is the position where a library is declared.
pub open spec fn library_name_plan(x: Ident) -> Plan {
    Plan::Ask(Hook::DeclPos(x.pos))
}

/// The names of a library clause, one after the other.
pub open spec fn library_clause_names_plan(xs: Seq<Ident>) -> Plan
    decreases xs,
{
    if xs.len() == 0 {
        Plan::Nil
    } else {
        followed_by(library_name_plan(xs[0]), library_clause_names_plan(xs.drop_first()))
    }
}

pub open spec fn library_clause_plan(x: LibraryClause) -> Plan {
    library_clause_names_plan(x.name_list@)
}

/// A context item: asked about its position; when the search may go on, the
/// names it holds are searched.
pub open spec fn context_item_plan(x: WithPos<ContextItem>) -> Plan {
    guard(
        Hook::WithPos(x.pos),
        match x.item {
            ContextItem::Use(use_clause) => names_plan(use_clause.name_list@),
            ContextItem::Library(library_clause) => library_clause_plan(library_clause),
            ContextItem::Context(context_clause) => names_plan(context_clause.name_list@),
        },
    )
}

/// The items of a context clause, one after the other.
pub open spec fn context_clause_plan(xs: Seq<WithPos<ContextItem>>) -> Plan
    decreases xs,
{
    if xs.len() == 0 {
        Plan::Nil
    } else {
        followed_by(context_item_plan(xs[0]), context_clause_plan(xs.drop_first()))
    }
}

/// An entity: asked about its source file first; when the search may go on,
/// its context clause, the position of its name, its generics, its ports, its
/// declarations and its statements.
pub open spec fn entity_unit_plan(x: EntityUnit) -> Plan {
    guard(
        Hook::Source(x.unit.ident.pos.source),
        followed_by(
            context_clause_plan(x.context_clause@),
            followed_by(
                Plan::Ask(Hook::DeclPos(x.unit.ident.pos)),
                followed_by(
                    optional_interface_list_plan(x.unit.generic_clause),
                    followed_by(
                        optional_interface_list_plan(x.unit.port_clause),
                        followed_by(
                            declarations_plan(x.unit.decl@),
                            concurrent_statements_plan(x.unit.statements@),
                        ),
                    ),
                ),
            ),
        ),
    )
}

/// An architecture: asked about its source file first; when the search may
/// go on, its context clause, the reference made by its entity name, its
/// declarations and its statements.
pub open spec fn architecture_unit_plan(x: ArchitectureUnit) -> Plan {
    guard(
        Hook::Source(x.unit.ident.pos.source),
        followed_by(
            context_clause_plan(x.context_clause@),
            followed_by(
                Plan::Ask(Hook::IdentRef(x.unit.entity_name)),
                followed_by(
                    declarations_plan(x.unit.decl@),
                    concurrent_statements_plan(x.unit.statements@),
                ),
            ),
        ),
    )
}

/// A package: asked about its source file first; when the search may go on,
/// its context clause, the position of its name, its generics and its
/// declarations.
pub open spec fn package_unit_plan(x: PackageUnit) -> Plan {
    guard(
        Hook::Source(x.unit.ident.pos.source),
        followed_by(
            context_clause_plan(x.context_clause@),
            followed_by(
                Plan::Ask(Hook::DeclPos(x.unit.ident.pos)),
                followed_by(
                    optional_interface_list_plan(x.unit.generic_clause),
                    declarations_plan(x.unit.decl@),
                ),
            ),
        ),
    )
}

/// A package body: asked about its source file first; when the search may go
/// on, the reference made by its name, its context clause and its
/// declarations.
pub open spec fn package_body_unit_plan(x: PackageBodyUnit) -> Plan {
    guard(
        Hook::Source(x.unit.ident.item.pos.source),
        followed_by(
            Plan::Ask(Hook::IdentRef(x.unit.ident)),
            followed_by(context_clause_plan(x.context_clause@), declarations_plan(x.unit.decl@)),
        ),
    )
}

/// A package instance: asked about its source file first; when the search
/// may go on, its context clause, the position of its name and the name of
/// the instantiated package.
pub open spec fn package_instance_unit_plan(x: PackageInstanceUnit) -> Plan {
    guard(
        Hook::Source(x.unit.ident.pos.source),
        followed_by(
            context_clause_plan(x.context_clause@),
            followed_by(
                Plan::Ask(Hook::DeclPos(x.unit.ident.pos)),
                selected_name_plan(x.unit.package_name),
            ),
        ),
    )
}

/// A configuration: asked about its source file first; when the search may
/// go on, the position of its name, its context clause and its entity name.
pub open spec fn configuration_unit_plan(x: ConfigurationUnit) -> Plan {
    guard(
        Hook::Source(x.unit.ident.pos.source),
        followed_by(
            Plan::Ask(Hook::DeclPos(x.unit.ident.pos)),
            followed_by(context_clause_plan(x.context_clause@), selected_name_plan(x.unit.entity_name)),
        ),
    )
}

/// A context declaration: asked about its source file first; when the search
/// may go on, the position of its name, then its items.
pub open spec fn context_declaration_plan(x: ContextDeclaration) -> Plan {
    guard(
        Hook::Source(x.ident.pos.source),
        followed_by(Plan::Ask(Hook::DeclPos(x.ident.pos)), context_clause_plan(x.items@)),
    )
}

// The searches. Each one is proved to do what its plan says.

pub fn search_library_name<T, S: Searcher<T>>(x: &Ident, searcher: &mut S) -> (r: SearchResult<T>)
    ensures
        (final(searcher)@, r) == run::<T, S>(library_name_plan(*x), old(searcher)@),
{
    searcher.search_decl_pos(x.pos()).or_not_found()
}

pub fn search_library_clause_names<T, S: Searcher<T>>(xs: &Vec<Ident>, searcher: &mut S) -> (r: SearchResult<T>)
    ensures
        (final(searcher)@, r) == run::<T, S>(library_clause_names_plan(xs@), old(searcher)@),
    decreases xs@,
{
    let mut i: usize = 0;
    proof {
        assert(xs@.skip(0) =~= xs@);
    }
    while i < xs.len()
        invariant
            i <= xs.len(),
            run::<T, S>(library_clause_names_plan(xs@), old(searcher)@) == run::<T, S>(library_clause_names_plan(xs@.skip(i as int)), searcher@),
        decreases xs.len() - i,
    {
        proof {
            assert(xs@.skip(i as int).drop_first() =~= xs@.skip(i + 1));
        }
        match search_library_name(&xs[i], searcher) {
            SearchResult::Found(x) => {
                return SearchResult::Found(x);
            },
            SearchResult::NotFound => {},
        }
        i = i + 1;
    }
    proof {
        assert(xs@.skip(i as int) =~= Seq::<Ident>::empty());
    }
    SearchResult::NotFound
}
pub fn search_library_clause<T, S: Searcher<T>>(x: &LibraryClause, searcher: &mut S) -> (r: SearchResult<T>)
    ensures
        (final(searcher)@, r) == run::<T, S>(library_clause_plan(*x), old(searcher)@),
{
    search_library_clause_names(&x.name_list, searcher)
}

pub fn search_context_item<T, S: Searcher<T>>(x: &WithPos<ContextItem>, searcher: &mut S) -> (r: SearchResult<T>)
    ensures
        (final(searcher)@, r) == run::<T, S>(context_item_plan(*x), old(searcher)@),
{
    proof {
        reveal_with_fuel(run, 4);
    }
    match searcher.search_with_pos(&x.pos) {
        SearchState::Finished(result) => result,
        SearchState::NotFinished => match &x.item {
            ContextItem::Use(use_clause) => search_names(&use_clause.name_list, searcher),
            ContextItem::Library(library_clause) => search_library_clause(library_clause, searcher),
            ContextItem::Context(context_clause) => search_names(&context_clause.name_list, searcher),
        },
    }
}

pub fn search_context_clause<T, S: Searcher<T>>(xs: &Vec<WithPos<ContextItem>>, searcher: &mut S) -> (r: SearchResult<T>)
    ensures
        (final(searcher)@, r) == run::<T, S>(context_clause_plan(xs@), old(searcher)@),
    decreases xs@,
{
    let mut i: usize = 0;
    proof {
        assert(xs@.skip(0) =~= xs@);
    }
    while i < xs.len()
        invariant
            i <= xs.len(),
            run::<T, S>(context_clause_plan(xs@), old(searcher)@) == run::<T, S>(context_clause_plan(xs@.skip(i as int)), searcher@),
        decreases xs.len() - i,
    {
        proof {
            assert(xs@.skip(i as int).drop_first() =~= xs@.skip(i + 1));
        }
        match search_context_item(&xs[i], searcher) {
            SearchResult::Found(x) => {
                return SearchResult::Found(x);
            },
            SearchResult::NotFound => {},
        }
        i = i + 1;
    }
    proof {
        assert(xs@.skip(i as int) =~= Seq::<WithPos<ContextItem>>::empty());
    }
    SearchResult::NotFound
}
pub fn search_entity_unit<T, S: Searcher<T>>(x: &EntityUnit, searcher: &mut S) -> (r: SearchResult<T>)
    ensures
        (final(searcher)@, r) == run::<T, S>(entity_unit_plan(*x), old(searcher)@),
{
    proof {
        reveal_with_fuel(run, 8);
    }
    match searcher.search_source(x.source()) {
        SearchState::Finished(result) => result,
        SearchState::NotFinished => {
            match search_context_clause(&x.context_clause, searcher) {
                SearchResult::Found(v) => {
                    return SearchResult::Found(v);
                },
                SearchResult::NotFound => {},
            }
            match searcher.search_decl_pos(x.ident().pos()).or_not_found() {
                SearchResult::Found(v) => {
                    return SearchResult::Found(v);
                },
                SearchResult::NotFound => {},
            }
            match search_optional_interface_list(&x.unit.generic_clause, searcher) {
                SearchResult::Found(v) => {
                    return SearchResult::Found(v);
                },
                SearchResult::NotFound => {},
            }
            match search_optional_interface_list(&x.unit.port_clause, searcher) {
                SearchResult::Found(v) => {
                    return SearchResult::Found(v);
                },
                SearchResult::NotFound => {},
            }
            match search_declarations(&x.unit.decl, searcher) {
                SearchResult::Found(v) => {
                    return SearchResult::Found(v);
                },
                SearchResult::NotFound => {},
            }
            search_concurrent_statements(&x.unit.statements, searcher)
        },
    }
}

pub fn search_architecture_unit<T, S: Searcher<T>>(x: &ArchitectureUnit, searcher: &mut S) -> (r: SearchResult<T>)
    ensures
        (final(searcher)@, r) == run::<T, S>(architecture_unit_plan(*x), old(searcher)@),
{
    proof {
        reveal_with_fuel(run, 8);
    }
    match searcher.search_source(x.source()) {
        SearchState::Finished(result) => result,
        SearchState::NotFinished => {
            match search_context_clause(&x.context_clause, searcher) {
                SearchResult::Found(v) => {
                    return SearchResult::Found(v);
                },
                SearchResult::NotFound => {},
            }
            match searcher.search_ident_ref(&x.unit.entity_name).or_not_found() {
                SearchResult::Found(v) => {
                    return SearchResult::Found(v);
                },
                SearchResult::NotFound => {},
            }
            match search_declarations(&x.unit.decl, searcher) {
                SearchResult::Found(v) => {
                    return SearchResult::Found(v);
                },
                SearchResult::NotFound => {},
            }
            search_concurrent_statements(&x.unit.statements, searcher)
        },
    }
}

pub fn search_package_unit<T, S: Searcher<T>>(x: &PackageUnit, searcher: &mut S) -> (r: SearchResult<T>)
    ensures
        (final(searcher)@, r) == run::<T, S>(package_unit_plan(*x), old(searcher)@),
{
    proof {
        reveal_with_fuel(run, 8);
    }
    match searcher.search_source(x.source()) {
        SearchState::Finished(result) => result,
        SearchState::NotFinished => {
            match search_context_clause(&x.context_clause, searcher) {
                SearchResult::Found(v) => {
                    return SearchResult::Found(v);
                },
                SearchResult::NotFound => {},
            }
            match searcher.search_decl_pos(x.ident().pos()).or_not_found() {
                SearchResult::Found(v) => {
                    return SearchResult::Found(v);
                },
                SearchResult::NotFound => {},
            }
            match search_optional_interface_list(&x.unit.generic_clause, searcher) {
                SearchResult::Found(v) => {
                    return SearchResult::Found(v);
                },
                SearchResult::NotFound => {},
            }
            search_declarations(&x.unit.decl, searcher)
        },
    }
}

pub fn search_package_body_unit<T, S: Searcher<T>>(x: &PackageBodyUnit, searcher: &mut S) -> (r: SearchResult<T>)
    ensures
        (final(searcher)@, r) == run::<T, S>(package_body_unit_plan(*x), old(searcher)@),
{
    proof {
        reveal_with_fuel(run, 8);
    }
    match searcher.search_source(x.source()) {
        SearchState::Finished(result) => result,
        SearchState::NotFinished => {
            match searcher.search_ident_ref(&x.unit.ident).or_not_found() {
                SearchResult::Found(v) => {
                    return SearchResult::Found(v);
                },
                SearchResult::NotFound => {},
            }
            match search_context_clause(&x.context_clause, searcher) {
                SearchResult::Found(v) => {
                    return SearchResult::Found(v);
                },
                SearchResult::NotFound => {},
            }
            search_declarations(&x.unit.decl, searcher)
        },
    }
}

pub fn search_package_instance_unit<T, S: Searcher<T>>(x: &PackageInstanceUnit, searcher: &mut S) -> (r: SearchResult<T>)
    ensures
        (final(searcher)@, r) == run::<T, S>(package_instance_unit_plan(*x), old(searcher)@),
{
    proof {
        reveal_with_fuel(run, 8);
    }
    match searcher.search_source(x.source()) {
        SearchState::Finished(result) => result,
        SearchState::NotFinished => {
            match search_context_clause(&x.context_clause, searcher) {
                SearchResult::Found(v) => {
                    return SearchResult::Found(v);
                },
                SearchResult::NotFound => {},
            }
            match searcher.search_decl_pos(x.ident().pos()).or_not_found() {
                SearchResult::Found(v) => {
                    return SearchResult::Found(v);
                },
                SearchResult::NotFound => {},
            }
            search_selected_name(&x.unit.package_name, searcher)
        },
    }
}

pub fn search_configuration_unit<T, S: Searcher<T>>(x: &ConfigurationUnit, searcher: &mut S) -> (r: SearchResult<T>)
    ensures
        (final(searcher)@, r) == run::<T, S>(configuration_unit_plan(*x), old(searcher)@),
{
    proof {
        reveal_with_fuel(run, 8);
    }
    match searcher.search_source(x.source()) {
        SearchState::Finished(result) => result,
        SearchState::NotFinished => {
            match searcher.search_decl_pos(x.ident().pos()).or_not_found() {
                SearchResult::Found(v) => {
                    return SearchResult::Found(v);
                },
                SearchResult::NotFound => {},
            }
            match search_context_clause(&x.context_clause, searcher) {
                SearchResult::Found(v) => {
                    return SearchResult::Found(v);
                },
                SearchResult::NotFound => {},
            }
            search_selected_name(&x.unit.entity_name, searcher)
        },
    }
}

pub fn search_context_declaration<T, S: Searcher<T>>(x: &ContextDeclaration, searcher: &mut S) -> (r: SearchResult<T>)
    ensures
        (final(searcher)@, r) == run::<T, S>(context_declaration_plan(*x), old(searcher)@),
{
    proof {
        reveal_with_fuel(run, 8);
    }
    match searcher.search_source(x.source()) {
        SearchState::Finished(result) => result,
        SearchState::NotFinished => {
            match searcher.search_decl_pos(x.ident().pos()).or_not_found() {
                SearchResult::Found(v) => {
                    return SearchResult::Found(v);
                },
                SearchResult::NotFound => {},
            }
            search_context_clause(&x.items, searcher)
        },
    }
}

} // verus!
