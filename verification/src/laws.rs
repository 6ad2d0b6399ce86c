//! What the searches do, stated over all trees: which names are found, in
//! which order the parts of a node are searched, and which part answers the
//! search for the item at a cursor.

use vstd::prelude::*;
use crate::ast::{
    Alternative, ArchitectureUnit, ArrayIndex, AssociationElement, Choice, ConfigurationUnit,
    Conditional, ContextDeclaration, ContextItem, Declaration, Designator, DiscreteRange,
    ElementAssociation, ElementConstraint, ElementDeclaration, EntityUnit, Expression,
    FunctionCall, GenerateBody, InterfaceDeclaration, LabeledConcurrentStatement,
    LabeledSequentialStatement, Name, ObjectDeclaration, Operator, PackageBodyUnit, PackageInstanceUnit, PackageUnit,
    ProtectedTypeDeclarativeItem, RangeConstraint, SelectedName, SubprogramDeclaration,
    SubtypeIndication, TypeDeclaration,
};
use crate::cursor::{
    cursor_finds, first_found, lemma_cursor_followed_by, lemma_cursor_sequence, ItemAtCursor,
};
use crate::references::{
    concat_references, lemma_references_of_ask, lemma_references_of_followed_by,
    lemma_references_of_guard, lemma_references_of_sequence, references_at, references_of,
};
use crate::search::{followed_by, guard, run, sequence, Hook, Plan, SearchResult};
use crate::source::{Ident, SrcPos, WithPos, WithRef};
use crate::walk_decl::{
    array_index_plan, array_indexes_plan, concurrent_statement_plan, concurrent_statements_plan,
    conditional_expression_plan, conditional_expressions_plan, declaration_plan,
    declarations_plan, element_declaration_plan, element_declarations_plan,
    generate_alternative_plan, generate_alternatives_plan, generate_conditional_plan,
    generate_body_plan, generate_conditionals_plan, interface_declaration_plan, interface_declarations_plan,
    object_declaration_plan, optional_interface_list_plan, protected_item_plan, protected_items_plan,
    sequential_statement_plan, sequential_statements_plan, subprogram_declaration_plan,
    type_declaration_plan,
};
use crate::walk_expr::{
    association_element_plan, association_elements_plan, choice_plan, choices_plan,
    designator_plan, discrete_range_plan, discrete_ranges_plan, element_association_plan,
    element_associations_plan, element_constraint_plan, element_constraints_plan,
    expression_plan, function_call_plan, name_plan, names_plan, pos_expr_plan, pos_name_plan,
    range_constraint_plan, selected_name_plan, subtype_constraint_plan, subtype_indication_plan,
};
use crate::walk_unit::{
    architecture_unit_plan, configuration_unit_plan, context_clause_plan,
    context_declaration_plan, context_item_plan, entity_unit_plan, library_clause_names_plan,
    library_name_plan, package_body_unit_plan, package_instance_unit_plan, package_unit_plan,
};

verus! {

// Declared names

/// The position of the designator that a subprogram declares.
pub open spec fn subprogram_designator(s: SubprogramDeclaration) -> SrcPos {
    match s {
        SubprogramDeclaration::Function(f) => f.designator.pos,
        SubprogramDeclaration::Procedure(p) => p.designator.pos,
    }
}

/// The position of the name that a declaration declares, for the kinds of
/// declaration whose name the search asks about: objects, types,
/// components, and subprogram declarations and bodies.
pub open spec fn declared_name(d: Declaration) -> Option<SrcPos> {
    match d {
        Declaration::Object(o) => Some(o.ident.pos),
        Declaration::Type(t) => Some(t.ident.pos),
        Declaration::Component(c) => Some(c.ident.pos),
        Declaration::SubprogramDeclaration(s) => Some(subprogram_designator(s)),
        Declaration::SubprogramBody(b) => Some(subprogram_designator(b.specification)),
        _ => None,
    }
}

/// The position of the name that an interface declaration declares, for
/// interface objects and subprograms.
pub open spec fn interface_declared_name(d: InterfaceDeclaration) -> Option<SrcPos> {
    match d {
        InterfaceDeclaration::Object(o) => Some(o.ident.pos),
        InterfaceDeclaration::Subprogram(s, _) => Some(subprogram_designator(s)),
        _ => None,
    }
}

/// A search that finds the name at `pos` first: the first reference that the
/// search for references to `pos` collects is `pos` itself, and a cursor
/// that touches `pos` finds `pos`.
pub open spec fn finds_name_first(p: Plan, pos: SrcPos, c: ItemAtCursor) -> bool {
    &&& references_of(p, pos).len() > 0
    &&& references_of(p, pos)[0] == pos
    &&& c.spec_is_inside(pos) ==> cursor_finds(p, c) == SearchResult::Found(pos)
}

proof fn lemma_asking_decl_pos_first(pos: SrcPos, rest: Plan, c: ItemAtCursor)
    ensures
        finds_name_first(followed_by(Plan::Ask(Hook::DeclPos(pos)), rest), pos, c),
{
    lemma_references_of_followed_by(Plan::Ask(Hook::DeclPos(pos)), rest, pos);
    lemma_references_of_ask(Hook::DeclPos(pos), pos);
    lemma_cursor_followed_by(Plan::Ask(Hook::DeclPos(pos)), rest, c);
}

proof fn lemma_finds_name_first_then(a: Plan, b: Plan, pos: SrcPos, c: ItemAtCursor)
    requires
        finds_name_first(a, pos, c),
    ensures
        finds_name_first(followed_by(a, b), pos, c),
{
    lemma_references_of_followed_by(a, b, pos);
    lemma_cursor_followed_by(a, b, c);
}

proof fn lemma_declaration_hook_is_quiet(h: Hook, q: Plan, pos: SrcPos, c: ItemAtCursor)
    requires
        h is Declaration || h is InterfaceDeclaration,
    ensures
        references_of(guard(h, q), pos) == references_of(q, pos),
        cursor_finds(guard(h, q), c) == cursor_finds(q, c),
{
    lemma_references_of_guard(h, q, pos);
    assert(references_at(h, pos) + references_of(q, pos) =~= references_of(q, pos));
}

/// The search of a subprogram declaration finds the subprogram's designator
/// before anything else.
pub proof fn lemma_subprogram_finds_its_name_first(s: SubprogramDeclaration, c: ItemAtCursor)
    ensures
        finds_name_first(subprogram_declaration_plan(s), subprogram_designator(s), c),
{
    match s {
        SubprogramDeclaration::Function(f) => {
            lemma_asking_decl_pos_first(f.designator.pos, followed_by(
                interface_declarations_plan(f.parameter_list@),
                selected_name_plan(f.return_type),
            ), c);
        },
        SubprogramDeclaration::Procedure(p) => {
            lemma_asking_decl_pos_first(p.designator.pos, interface_declarations_plan(p.parameter_list@), c);
        },
    }
}

/// The search of a type declaration finds the type's name before anything
/// else: the reference search lists the declaration itself first, and a
/// cursor on the name finds the declaration.
pub proof fn lemma_type_declaration_finds_its_name_first(x: TypeDeclaration, c: ItemAtCursor)
    ensures
        finds_name_first(type_declaration_plan(x), x.ident.pos, c),
{
    let rest = match type_declaration_plan(x) {
        Plan::Then(_, b) => *b,
        _ => Plan::Nil,
    };
    lemma_asking_decl_pos_first(x.ident.pos, rest, c);
}

/// The search of a declaration that declares a name finds that name before
/// anything else: the reference search lists the declaration itself first,
/// and a cursor on the name finds the declaration.
pub proof fn lemma_declaration_finds_its_name_first(d: Declaration, pos: SrcPos, c: ItemAtCursor)
    requires
        declared_name(d) == Some(pos),
    ensures
        finds_name_first(declaration_plan(d), pos, c),
{
    let inner = match declaration_plan(d) {
        Plan::Guard(_, q) => *q,
        _ => Plan::Nil,
    };
    lemma_declaration_hook_is_quiet(Hook::Declaration(d), inner, pos, c);
    match d {
        Declaration::Object(o) => {
            let rest = match inner {
                Plan::Then(_, b) => *b,
                _ => Plan::Nil,
            };
            lemma_asking_decl_pos_first(o.ident.pos, rest, c);
        },
        Declaration::Type(t) => {
            lemma_type_declaration_finds_its_name_first(t, c);
        },
        Declaration::Component(comp) => {
            let rest = match inner {
                Plan::Then(_, b) => *b,
                _ => Plan::Nil,
            };
            lemma_asking_decl_pos_first(comp.ident.pos, rest, c);
        },
        Declaration::SubprogramDeclaration(s) => {
            lemma_subprogram_finds_its_name_first(s, c);
        },
        Declaration::SubprogramBody(b) => {
            lemma_subprogram_finds_its_name_first(b.specification, c);
            lemma_finds_name_first_then(
                subprogram_declaration_plan(b.specification),
                followed_by(declarations_plan(b.declarations@), sequential_statements_plan(b.statements@)),
                pos,
                c,
            );
        },
        _ => {},
    }
}

/// The search of an interface object or subprogram (a generic, a port or a
/// parameter) finds its name before anything else, and so before its
/// subtype: the reference search lists the declaration itself first, and a
/// cursor on the name finds the declaration.
pub proof fn lemma_interface_declaration_finds_its_name_first(d: InterfaceDeclaration, pos: SrcPos, c: ItemAtCursor)
    requires
        interface_declared_name(d) == Some(pos),
    ensures
        finds_name_first(interface_declaration_plan(d), pos, c),
{
    let inner = match interface_declaration_plan(d) {
        Plan::Guard(_, q) => *q,
        _ => Plan::Nil,
    };
    lemma_declaration_hook_is_quiet(Hook::InterfaceDeclaration(d), inner, pos, c);
    match d {
        InterfaceDeclaration::Object(o) => {
            let rest = match inner {
                Plan::Then(_, b) => *b,
                _ => Plan::Nil,
            };
            lemma_asking_decl_pos_first(o.ident.pos, rest, c);
        },
        InterfaceDeclaration::Subprogram(s, _) => {
            lemma_subprogram_finds_its_name_first(s, c);
        },
        _ => {},
    }
}

// Names

/// A designator with a reference is a reference to the declaration it refers
/// to, and nothing else: a cursor that touches it finds that declaration,
/// and a cursor elsewhere finds nothing.
pub proof fn lemma_designator_is_a_reference(w: WithPos<WithRef<Designator>>, decl_pos: SrcPos, c: ItemAtCursor)
    ensures
        references_of(designator_plan(w), decl_pos) == if w.item.reference == Some(decl_pos) {
            seq![w.pos]
        } else {
            Seq::<SrcPos>::empty()
        },
        cursor_finds(designator_plan(w), c) == if c.spec_is_inside(w.pos) {
            match w.item.reference {
                Some(r) => SearchResult::Found(r),
                None => SearchResult::NotFound,
            }
        } else {
            SearchResult::<SrcPos>::NotFound
        },
{
    reveal_with_fuel(run, 3);
    let h = Hook::DesignatorRef(w.pos, w.item);
    lemma_references_of_guard(Hook::WithPos(w.pos), Plan::Ask(h), decl_pos);
    lemma_references_of_ask(h, decl_pos);
    assert(Seq::<SrcPos>::empty() + references_at(h, decl_pos) =~= references_at(h, decl_pos));
}

/// A selected name `prefix.suffix` is searched prefix first, then suffix:
/// the reference search collects the references of the prefix, then that of
/// the suffix; a cursor that touches the whole name finds what the prefix
/// finds, or else what the suffix finds; a cursor that does not touch the
/// whole name finds nothing in it.
pub proof fn lemma_selected_name_searches_prefix_then_suffix(
    x: WithPos<SelectedName>,
    prefix: WithPos<SelectedName>,
    suffix: WithPos<WithRef<Designator>>,
    decl_pos: SrcPos,
    c: ItemAtCursor,
)
    requires
        x.item == SelectedName::Selected(Box::new(prefix), suffix),
    ensures
        references_of(selected_name_plan(x), decl_pos) == references_of(selected_name_plan(prefix), decl_pos)
            + references_of(designator_plan(suffix), decl_pos),
        cursor_finds(selected_name_plan(x), c) == if c.spec_is_inside(x.pos) {
            match cursor_finds(selected_name_plan(prefix), c) {
                SearchResult::Found(item) => SearchResult::Found(item),
                SearchResult::NotFound => cursor_finds(designator_plan(suffix), c),
            }
        } else {
            SearchResult::<SrcPos>::NotFound
        },
{
    let body = followed_by(selected_name_plan(prefix), designator_plan(suffix));
    assert(selected_name_plan(x) == guard(Hook::WithPos(x.pos), body));
    lemma_references_of_guard(Hook::WithPos(x.pos), body, decl_pos);
    lemma_references_of_followed_by(selected_name_plan(prefix), designator_plan(suffix), decl_pos);
    assert(Seq::<SrcPos>::empty() + references_of(body, decl_pos) =~= references_of(body, decl_pos));
    lemma_cursor_followed_by(selected_name_plan(prefix), designator_plan(suffix), c);
}

/// A simple name that refers to a declaration is a reference to it, at the
/// name's position: the reference search collects that position, and a
/// cursor that touches it finds the declaration.
pub proof fn lemma_simple_name_is_a_reference(x: WithPos<Name>, d: WithRef<Designator>, decl_pos: SrcPos, c: ItemAtCursor)
    requires
        x.item == Name::Designator(d),
    ensures
        references_of(name_plan(x), decl_pos) == if d.reference == Some(decl_pos) {
            seq![x.pos]
        } else {
            Seq::<SrcPos>::empty()
        },
        cursor_finds(name_plan(x), c) == if c.spec_is_inside(x.pos) {
            match d.reference {
                Some(r) => SearchResult::Found(r),
                None => SearchResult::NotFound,
            }
        } else {
            SearchResult::<SrcPos>::NotFound
        },
{
    let h = Hook::DesignatorRef(x.pos, d);
    assert(pos_name_plan(x.pos, x.item) == Plan::Ask(h));
    lemma_references_of_followed_by(Plan::Ask(Hook::WithPos(x.pos)), Plan::Ask(h), decl_pos);
    lemma_references_of_ask(Hook::WithPos(x.pos), decl_pos);
    lemma_references_of_ask(h, decl_pos);
    assert(Seq::<SrcPos>::empty() + references_at(h, decl_pos) =~= references_at(h, decl_pos));
    lemma_cursor_followed_by(Plan::Ask(Hook::WithPos(x.pos)), Plan::Ask(h), c);
}

/// A selected name `prefix.suffix` is searched prefix first, then suffix,
/// whether or not the whole name touches the cursor.
pub proof fn lemma_name_searches_prefix_then_suffix(
    x: WithPos<Name>,
    prefix: WithPos<Name>,
    suffix: WithPos<WithRef<Designator>>,
    decl_pos: SrcPos,
    c: ItemAtCursor,
)
    requires
        x.item == Name::Selected(Box::new(prefix), suffix),
    ensures
        references_of(name_plan(x), decl_pos) == references_of(name_plan(prefix), decl_pos)
            + references_of(designator_plan(suffix), decl_pos),
        cursor_finds(name_plan(x), c) == match cursor_finds(name_plan(prefix), c) {
            SearchResult::Found(item) => SearchResult::Found(item),
            SearchResult::NotFound => cursor_finds(designator_plan(suffix), c),
        },
{
    let body = followed_by(name_plan(prefix), designator_plan(suffix));
    assert(pos_name_plan(x.pos, x.item) == body);
    lemma_references_of_followed_by(Plan::Ask(Hook::WithPos(x.pos)), body, decl_pos);
    lemma_references_of_ask(Hook::WithPos(x.pos), decl_pos);
    lemma_references_of_followed_by(name_plan(prefix), designator_plan(suffix), decl_pos);
    assert(Seq::<SrcPos>::empty() + references_of(body, decl_pos) =~= references_of(body, decl_pos));
    lemma_cursor_followed_by(Plan::Ask(Hook::WithPos(x.pos)), body, c);
    lemma_cursor_followed_by(name_plan(prefix), designator_plan(suffix), c);
}

/// A function or procedure call searches its name, then every actual
/// parameter in order: the reference search collects the references of the
/// name, then those of each parameter; the cursor search finds what the first
/// of them that finds something finds.
pub proof fn lemma_function_call_searches_name_then_every_parameter(f: FunctionCall, decl_pos: SrcPos, c: ItemAtCursor)
    ensures
        references_of(function_call_plan(f), decl_pos) == references_of(name_plan(f.name), decl_pos)
            + concat_references(
            f.parameters@.map_values(|a: AssociationElement| association_element_plan(a)),
            decl_pos,
        ),
        cursor_finds(function_call_plan(f), c) == first_found(
            seq![name_plan(f.name)] + f.parameters@.map_values(
                |a: AssociationElement| association_element_plan(a),
            ),
            c,
        ),
{
    let ps = f.parameters@.map_values(|a: AssociationElement| association_element_plan(a));
    lemma_association_elements_searches_every_item(f.parameters@, decl_pos, c);
    lemma_references_of_followed_by(name_plan(f.name), association_elements_plan(f.parameters@), decl_pos);
    lemma_cursor_followed_by(name_plan(f.name), association_elements_plan(f.parameters@), c);
    let all = seq![name_plan(f.name)] + ps;
    assert(all[0] == name_plan(f.name));
    assert(all.drop_first() =~= ps);
}

proof fn lemma_element_declarations_is_sequence(xs: Seq<ElementDeclaration>)
    ensures
        element_declarations_plan(xs) == sequence(xs.map_values(|x: ElementDeclaration| element_declaration_plan(x))),
    decreases xs.len(),
{
    if xs.len() > 0 {
        lemma_element_declarations_is_sequence(xs.drop_first());
        assert(xs.map_values(|x: ElementDeclaration| element_declaration_plan(x)).drop_first() =~= xs.drop_first().map_values(
            |x: ElementDeclaration| element_declaration_plan(x),
        ));
    }
}

/// Searching the elements of a record type searches every item, in order: the reference search
/// collects what each item collects, one after the other, and the cursor
/// search finds what the first item that finds something finds.
pub proof fn lemma_element_declarations_searches_every_item(xs: Seq<ElementDeclaration>, decl_pos: SrcPos, c: ItemAtCursor)
    ensures
        references_of(element_declarations_plan(xs), decl_pos) == concat_references(
            xs.map_values(|x: ElementDeclaration| element_declaration_plan(x)),
            decl_pos,
        ),
        cursor_finds(element_declarations_plan(xs), c) == first_found(xs.map_values(|x: ElementDeclaration| element_declaration_plan(x)), c),
{
    lemma_element_declarations_is_sequence(xs);
    lemma_references_of_sequence(xs.map_values(|x: ElementDeclaration| element_declaration_plan(x)), decl_pos);
    lemma_cursor_sequence(xs.map_values(|x: ElementDeclaration| element_declaration_plan(x)), c);
}

proof fn lemma_array_indexes_is_sequence(xs: Seq<ArrayIndex>)
    ensures
        array_indexes_plan(xs) == sequence(xs.map_values(|x: ArrayIndex| array_index_plan(x))),
    decreases xs.len(),
{
    if xs.len() > 0 {
        lemma_array_indexes_is_sequence(xs.drop_first());
        assert(xs.map_values(|x: ArrayIndex| array_index_plan(x)).drop_first() =~= xs.drop_first().map_values(
            |x: ArrayIndex| array_index_plan(x),
        ));
    }
}

/// Searching the indexes of an array type searches every item, in order: the reference search
/// collects what each item collects, one after the other, and the cursor
/// search finds what the first item that finds something finds.
pub proof fn lemma_array_indexes_searches_every_item(xs: Seq<ArrayIndex>, decl_pos: SrcPos, c: ItemAtCursor)
    ensures
        references_of(array_indexes_plan(xs), decl_pos) == concat_references(
            xs.map_values(|x: ArrayIndex| array_index_plan(x)),
            decl_pos,
        ),
        cursor_finds(array_indexes_plan(xs), c) == first_found(xs.map_values(|x: ArrayIndex| array_index_plan(x)), c),
{
    lemma_array_indexes_is_sequence(xs);
    lemma_references_of_sequence(xs.map_values(|x: ArrayIndex| array_index_plan(x)), decl_pos);
    lemma_cursor_sequence(xs.map_values(|x: ArrayIndex| array_index_plan(x)), c);
}

proof fn lemma_protected_items_is_sequence(xs: Seq<ProtectedTypeDeclarativeItem>)
    ensures
        protected_items_plan(xs) == sequence(xs.map_values(|x: ProtectedTypeDeclarativeItem| protected_item_plan(x))),
    decreases xs.len(),
{
    if xs.len() > 0 {
        lemma_protected_items_is_sequence(xs.drop_first());
        assert(xs.map_values(|x: ProtectedTypeDeclarativeItem| protected_item_plan(x)).drop_first() =~= xs.drop_first().map_values(
            |x: ProtectedTypeDeclarativeItem| protected_item_plan(x),
        ));
    }
}

/// Searching the items of a protected type searches every item, in order: the reference search
/// collects what each item collects, one after the other, and the cursor
/// search finds what the first item that finds something finds.
pub proof fn lemma_protected_items_searches_every_item(xs: Seq<ProtectedTypeDeclarativeItem>, decl_pos: SrcPos, c: ItemAtCursor)
    ensures
        references_of(protected_items_plan(xs), decl_pos) == concat_references(
            xs.map_values(|x: ProtectedTypeDeclarativeItem| protected_item_plan(x)),
            decl_pos,
        ),
        cursor_finds(protected_items_plan(xs), c) == first_found(xs.map_values(|x: ProtectedTypeDeclarativeItem| protected_item_plan(x)), c),
{
    lemma_protected_items_is_sequence(xs);
    lemma_references_of_sequence(xs.map_values(|x: ProtectedTypeDeclarativeItem| protected_item_plan(x)), decl_pos);
    lemma_cursor_sequence(xs.map_values(|x: ProtectedTypeDeclarativeItem| protected_item_plan(x)), c);
}

proof fn lemma_declarations_is_sequence(xs: Seq<Declaration>)
    ensures
        declarations_plan(xs) == sequence(xs.map_values(|x: Declaration| declaration_plan(x))),
    decreases xs.len(),
{
    if xs.len() > 0 {
        lemma_declarations_is_sequence(xs.drop_first());
        assert(xs.map_values(|x: Declaration| declaration_plan(x)).drop_first() =~= xs.drop_first().map_values(
            |x: Declaration| declaration_plan(x),
        ));
    }
}

/// Searching a declarative part searches every item, in order: the reference search
/// collects what each item collects, one after the other, and the cursor
/// search finds what the first item that finds something finds.
pub proof fn lemma_declarations_searches_every_item(xs: Seq<Declaration>, decl_pos: SrcPos, c: ItemAtCursor)
    ensures
        references_of(declarations_plan(xs), decl_pos) == concat_references(
            xs.map_values(|x: Declaration| declaration_plan(x)),
            decl_pos,
        ),
        cursor_finds(declarations_plan(xs), c) == first_found(xs.map_values(|x: Declaration| declaration_plan(x)), c),
{
    lemma_declarations_is_sequence(xs);
    lemma_references_of_sequence(xs.map_values(|x: Declaration| declaration_plan(x)), decl_pos);
    lemma_cursor_sequence(xs.map_values(|x: Declaration| declaration_plan(x)), c);
}

proof fn lemma_interface_declarations_is_sequence(xs: Seq<InterfaceDeclaration>)
    ensures
        interface_declarations_plan(xs) == sequence(xs.map_values(|x: InterfaceDeclaration| interface_declaration_plan(x))),
    decreases xs.len(),
{
    if xs.len() > 0 {
        lemma_interface_declarations_is_sequence(xs.drop_first());
        assert(xs.map_values(|x: InterfaceDeclaration| interface_declaration_plan(x)).drop_first() =~= xs.drop_first().map_values(
            |x: InterfaceDeclaration| interface_declaration_plan(x),
        ));
    }
}

/// Searching an interface list searches every item, in order: the reference search
/// collects what each item collects, one after the other, and the cursor
/// search finds what the first item that finds something finds.
pub proof fn lemma_interface_declarations_searches_every_item(xs: Seq<InterfaceDeclaration>, decl_pos: SrcPos, c: ItemAtCursor)
    ensures
        references_of(interface_declarations_plan(xs), decl_pos) == concat_references(
            xs.map_values(|x: InterfaceDeclaration| interface_declaration_plan(x)),
            decl_pos,
        ),
        cursor_finds(interface_declarations_plan(xs), c) == first_found(xs.map_values(|x: InterfaceDeclaration| interface_declaration_plan(x)), c),
{
    lemma_interface_declarations_is_sequence(xs);
    lemma_references_of_sequence(xs.map_values(|x: InterfaceDeclaration| interface_declaration_plan(x)), decl_pos);
    lemma_cursor_sequence(xs.map_values(|x: InterfaceDeclaration| interface_declaration_plan(x)), c);
}

proof fn lemma_conditional_expressions_is_sequence(xs: Seq<Conditional<WithPos<Expression>>>)
    ensures
        conditional_expressions_plan(xs) == sequence(xs.map_values(|x: Conditional<WithPos<Expression>>| conditional_expression_plan(x))),
    decreases xs.len(),
{
    if xs.len() > 0 {
        lemma_conditional_expressions_is_sequence(xs.drop_first());
        assert(xs.map_values(|x: Conditional<WithPos<Expression>>| conditional_expression_plan(x)).drop_first() =~= xs.drop_first().map_values(
            |x: Conditional<WithPos<Expression>>| conditional_expression_plan(x),
        ));
    }
}

/// Searching the branches of a conditional assignment searches every item, in order: the reference search
/// collects what each item collects, one after the other, and the cursor
/// search finds what the first item that finds something finds.
pub proof fn lemma_conditional_expressions_searches_every_item(xs: Seq<Conditional<WithPos<Expression>>>, decl_pos: SrcPos, c: ItemAtCursor)
    ensures
        references_of(conditional_expressions_plan(xs), decl_pos) == concat_references(
            xs.map_values(|x: Conditional<WithPos<Expression>>| conditional_expression_plan(x)),
            decl_pos,
        ),
        cursor_finds(conditional_expressions_plan(xs), c) == first_found(xs.map_values(|x: Conditional<WithPos<Expression>>| conditional_expression_plan(x)), c),
{
    lemma_conditional_expressions_is_sequence(xs);
    lemma_references_of_sequence(xs.map_values(|x: Conditional<WithPos<Expression>>| conditional_expression_plan(x)), decl_pos);
    lemma_cursor_sequence(xs.map_values(|x: Conditional<WithPos<Expression>>| conditional_expression_plan(x)), c);
}

proof fn lemma_sequential_statements_is_sequence(xs: Seq<LabeledSequentialStatement>)
    ensures
        sequential_statements_plan(xs) == sequence(xs.map_values(|x: LabeledSequentialStatement| sequential_statement_plan(x))),
    decreases xs.len(),
{
    if xs.len() > 0 {
        lemma_sequential_statements_is_sequence(xs.drop_first());
        assert(xs.map_values(|x: LabeledSequentialStatement| sequential_statement_plan(x)).drop_first() =~= xs.drop_first().map_values(
            |x: LabeledSequentialStatement| sequential_statement_plan(x),
        ));
    }
}

/// Searching a sequence of statements searches every item, in order: the reference search
/// collects what each item collects, one after the other, and the cursor
/// search finds what the first item that finds something finds.
pub proof fn lemma_sequential_statements_searches_every_item(xs: Seq<LabeledSequentialStatement>, decl_pos: SrcPos, c: ItemAtCursor)
    ensures
        references_of(sequential_statements_plan(xs), decl_pos) == concat_references(
            xs.map_values(|x: LabeledSequentialStatement| sequential_statement_plan(x)),
            decl_pos,
        ),
        cursor_finds(sequential_statements_plan(xs), c) == first_found(xs.map_values(|x: LabeledSequentialStatement| sequential_statement_plan(x)), c),
{
    lemma_sequential_statements_is_sequence(xs);
    lemma_references_of_sequence(xs.map_values(|x: LabeledSequentialStatement| sequential_statement_plan(x)), decl_pos);
    lemma_cursor_sequence(xs.map_values(|x: LabeledSequentialStatement| sequential_statement_plan(x)), c);
}

proof fn lemma_generate_conditionals_is_sequence(xs: Seq<Conditional<GenerateBody>>)
    ensures
        generate_conditionals_plan(xs) == sequence(xs.map_values(|x: Conditional<GenerateBody>| generate_conditional_plan(x))),
    decreases xs.len(),
{
    if xs.len() > 0 {
        lemma_generate_conditionals_is_sequence(xs.drop_first());
        assert(xs.map_values(|x: Conditional<GenerateBody>| generate_conditional_plan(x)).drop_first() =~= xs.drop_first().map_values(
            |x: Conditional<GenerateBody>| generate_conditional_plan(x),
        ));
    }
}

/// Searching the branches of an if-generate statement searches every item, in order: the reference search
/// collects what each item collects, one after the other, and the cursor
/// search finds what the first item that finds something finds.
pub proof fn lemma_generate_conditionals_searches_every_item(xs: Seq<Conditional<GenerateBody>>, decl_pos: SrcPos, c: ItemAtCursor)
    ensures
        references_of(generate_conditionals_plan(xs), decl_pos) == concat_references(
            xs.map_values(|x: Conditional<GenerateBody>| generate_conditional_plan(x)),
            decl_pos,
        ),
        cursor_finds(generate_conditionals_plan(xs), c) == first_found(xs.map_values(|x: Conditional<GenerateBody>| generate_conditional_plan(x)), c),
{
    lemma_generate_conditionals_is_sequence(xs);
    lemma_references_of_sequence(xs.map_values(|x: Conditional<GenerateBody>| generate_conditional_plan(x)), decl_pos);
    lemma_cursor_sequence(xs.map_values(|x: Conditional<GenerateBody>| generate_conditional_plan(x)), c);
}

proof fn lemma_generate_alternatives_is_sequence(xs: Seq<Alternative<GenerateBody>>)
    ensures
        generate_alternatives_plan(xs) == sequence(xs.map_values(|x: Alternative<GenerateBody>| generate_alternative_plan(x))),
    decreases xs.len(),
{
    if xs.len() > 0 {
        lemma_generate_alternatives_is_sequence(xs.drop_first());
        assert(xs.map_values(|x: Alternative<GenerateBody>| generate_alternative_plan(x)).drop_first() =~= xs.drop_first().map_values(
            |x: Alternative<GenerateBody>| generate_alternative_plan(x),
        ));
    }
}

/// Searching the alternatives of a case-generate statement searches every item, in order: the reference search
/// collects what each item collects, one after the other, and the cursor
/// search finds what the first item that finds something finds.
pub proof fn lemma_generate_alternatives_searches_every_item(xs: Seq<Alternative<GenerateBody>>, decl_pos: SrcPos, c: ItemAtCursor)
    ensures
        references_of(generate_alternatives_plan(xs), decl_pos) == concat_references(
            xs.map_values(|x: Alternative<GenerateBody>| generate_alternative_plan(x)),
            decl_pos,
        ),
        cursor_finds(generate_alternatives_plan(xs), c) == first_found(xs.map_values(|x: Alternative<GenerateBody>| generate_alternative_plan(x)), c),
{
    lemma_generate_alternatives_is_sequence(xs);
    lemma_references_of_sequence(xs.map_values(|x: Alternative<GenerateBody>| generate_alternative_plan(x)), decl_pos);
    lemma_cursor_sequence(xs.map_values(|x: Alternative<GenerateBody>| generate_alternative_plan(x)), c);
}

proof fn lemma_concurrent_statements_is_sequence(xs: Seq<LabeledConcurrentStatement>)
    ensures
        concurrent_statements_plan(xs) == sequence(xs.map_values(|x: LabeledConcurrentStatement| concurrent_statement_plan(x))),
    decreases xs.len(),
{
    if xs.len() > 0 {
        lemma_concurrent_statements_is_sequence(xs.drop_first());
        assert(xs.map_values(|x: LabeledConcurrentStatement| concurrent_statement_plan(x)).drop_first() =~= xs.drop_first().map_values(
            |x: LabeledConcurrentStatement| concurrent_statement_plan(x),
        ));
    }
}

/// Searching a list of concurrent statements searches every item, in order: the reference search
/// collects what each item collects, one after the other, and the cursor
/// search finds what the first item that finds something finds.
pub proof fn lemma_concurrent_statements_searches_every_item(xs: Seq<LabeledConcurrentStatement>, decl_pos: SrcPos, c: ItemAtCursor)
    ensures
        references_of(concurrent_statements_plan(xs), decl_pos) == concat_references(
            xs.map_values(|x: LabeledConcurrentStatement| concurrent_statement_plan(x)),
            decl_pos,
        ),
        cursor_finds(concurrent_statements_plan(xs), c) == first_found(xs.map_values(|x: LabeledConcurrentStatement| concurrent_statement_plan(x)), c),
{
    lemma_concurrent_statements_is_sequence(xs);
    lemma_references_of_sequence(xs.map_values(|x: LabeledConcurrentStatement| concurrent_statement_plan(x)), decl_pos);
    lemma_cursor_sequence(xs.map_values(|x: LabeledConcurrentStatement| concurrent_statement_plan(x)), c);
}

proof fn lemma_choices_is_sequence(xs: Seq<Choice>)
    ensures
        choices_plan(xs) == sequence(xs.map_values(|x: Choice| choice_plan(x))),
    decreases xs.len(),
{
    if xs.len() > 0 {
        lemma_choices_is_sequence(xs.drop_first());
        assert(xs.map_values(|x: Choice| choice_plan(x)).drop_first() =~= xs.drop_first().map_values(
            |x: Choice| choice_plan(x),
        ));
    }
}

/// Searching the choices of an element association searches every item, in order: the reference search
/// collects what each item collects, one after the other, and the cursor
/// search finds what the first item that finds something finds.
pub proof fn lemma_choices_searches_every_item(xs: Seq<Choice>, decl_pos: SrcPos, c: ItemAtCursor)
    ensures
        references_of(choices_plan(xs), decl_pos) == concat_references(
            xs.map_values(|x: Choice| choice_plan(x)),
            decl_pos,
        ),
        cursor_finds(choices_plan(xs), c) == first_found(xs.map_values(|x: Choice| choice_plan(x)), c),
{
    lemma_choices_is_sequence(xs);
    lemma_references_of_sequence(xs.map_values(|x: Choice| choice_plan(x)), decl_pos);
    lemma_cursor_sequence(xs.map_values(|x: Choice| choice_plan(x)), c);
}

proof fn lemma_element_associations_is_sequence(xs: Seq<ElementAssociation>)
    ensures
        element_associations_plan(xs) == sequence(xs.map_values(|x: ElementAssociation| element_association_plan(x))),
    decreases xs.len(),
{
    if xs.len() > 0 {
        lemma_element_associations_is_sequence(xs.drop_first());
        assert(xs.map_values(|x: ElementAssociation| element_association_plan(x)).drop_first() =~= xs.drop_first().map_values(
            |x: ElementAssociation| element_association_plan(x),
        ));
    }
}

/// Searching the element associations of an aggregate searches every item, in order: the reference search
/// collects what each item collects, one after the other, and the cursor
/// search finds what the first item that finds something finds.
pub proof fn lemma_element_associations_searches_every_item(xs: Seq<ElementAssociation>, decl_pos: SrcPos, c: ItemAtCursor)
    ensures
        references_of(element_associations_plan(xs), decl_pos) == concat_references(
            xs.map_values(|x: ElementAssociation| element_association_plan(x)),
            decl_pos,
        ),
        cursor_finds(element_associations_plan(xs), c) == first_found(xs.map_values(|x: ElementAssociation| element_association_plan(x)), c),
{
    lemma_element_associations_is_sequence(xs);
    lemma_references_of_sequence(xs.map_values(|x: ElementAssociation| element_association_plan(x)), decl_pos);
    lemma_cursor_sequence(xs.map_values(|x: ElementAssociation| element_association_plan(x)), c);
}

proof fn lemma_association_elements_is_sequence(xs: Seq<AssociationElement>)
    ensures
        association_elements_plan(xs) == sequence(xs.map_values(|x: AssociationElement| association_element_plan(x))),
    decreases xs.len(),
{
    if xs.len() > 0 {
        lemma_association_elements_is_sequence(xs.drop_first());
        assert(xs.map_values(|x: AssociationElement| association_element_plan(x)).drop_first() =~= xs.drop_first().map_values(
            |x: AssociationElement| association_element_plan(x),
        ));
    }
}

/// Searching the actual parameters of a call searches every item, in order: the reference search
/// collects what each item collects, one after the other, and the cursor
/// search finds what the first item that finds something finds.
pub proof fn lemma_association_elements_searches_every_item(xs: Seq<AssociationElement>, decl_pos: SrcPos, c: ItemAtCursor)
    ensures
        references_of(association_elements_plan(xs), decl_pos) == concat_references(
            xs.map_values(|x: AssociationElement| association_element_plan(x)),
            decl_pos,
        ),
        cursor_finds(association_elements_plan(xs), c) == first_found(xs.map_values(|x: AssociationElement| association_element_plan(x)), c),
{
    lemma_association_elements_is_sequence(xs);
    lemma_references_of_sequence(xs.map_values(|x: AssociationElement| association_element_plan(x)), decl_pos);
    lemma_cursor_sequence(xs.map_values(|x: AssociationElement| association_element_plan(x)), c);
}

proof fn lemma_element_constraints_is_sequence(xs: Seq<ElementConstraint>)
    ensures
        element_constraints_plan(xs) == sequence(xs.map_values(|x: ElementConstraint| element_constraint_plan(x))),
    decreases xs.len(),
{
    if xs.len() > 0 {
        lemma_element_constraints_is_sequence(xs.drop_first());
        assert(xs.map_values(|x: ElementConstraint| element_constraint_plan(x)).drop_first() =~= xs.drop_first().map_values(
            |x: ElementConstraint| element_constraint_plan(x),
        ));
    }
}

/// Searching the element constraints of a record constraint searches every item, in order: the reference search
/// collects what each item collects, one after the other, and the cursor
/// search finds what the first item that finds something finds.
pub proof fn lemma_element_constraints_searches_every_item(xs: Seq<ElementConstraint>, decl_pos: SrcPos, c: ItemAtCursor)
    ensures
        references_of(element_constraints_plan(xs), decl_pos) == concat_references(
            xs.map_values(|x: ElementConstraint| element_constraint_plan(x)),
            decl_pos,
        ),
        cursor_finds(element_constraints_plan(xs), c) == first_found(xs.map_values(|x: ElementConstraint| element_constraint_plan(x)), c),
{
    lemma_element_constraints_is_sequence(xs);
    lemma_references_of_sequence(xs.map_values(|x: ElementConstraint| element_constraint_plan(x)), decl_pos);
    lemma_cursor_sequence(xs.map_values(|x: ElementConstraint| element_constraint_plan(x)), c);
}

proof fn lemma_discrete_ranges_is_sequence(xs: Seq<DiscreteRange>)
    ensures
        discrete_ranges_plan(xs) == sequence(xs.map_values(|x: DiscreteRange| discrete_range_plan(x))),
    decreases xs.len(),
{
    if xs.len() > 0 {
        lemma_discrete_ranges_is_sequence(xs.drop_first());
        assert(xs.map_values(|x: DiscreteRange| discrete_range_plan(x)).drop_first() =~= xs.drop_first().map_values(
            |x: DiscreteRange| discrete_range_plan(x),
        ));
    }
}

/// Searching a list of discrete ranges searches every item, in order: the reference search
/// collects what each item collects, one after the other, and the cursor
/// search finds what the first item that finds something finds.
pub proof fn lemma_discrete_ranges_searches_every_item(xs: Seq<DiscreteRange>, decl_pos: SrcPos, c: ItemAtCursor)
    ensures
        references_of(discrete_ranges_plan(xs), decl_pos) == concat_references(
            xs.map_values(|x: DiscreteRange| discrete_range_plan(x)),
            decl_pos,
        ),
        cursor_finds(discrete_ranges_plan(xs), c) == first_found(xs.map_values(|x: DiscreteRange| discrete_range_plan(x)), c),
{
    lemma_discrete_ranges_is_sequence(xs);
    lemma_references_of_sequence(xs.map_values(|x: DiscreteRange| discrete_range_plan(x)), decl_pos);
    lemma_cursor_sequence(xs.map_values(|x: DiscreteRange| discrete_range_plan(x)), c);
}

proof fn lemma_names_is_sequence(xs: Seq<WithPos<Name>>)
    ensures
        names_plan(xs) == sequence(xs.map_values(|x: WithPos<Name>| name_plan(x))),
    decreases xs.len(),
{
    if xs.len() > 0 {
        lemma_names_is_sequence(xs.drop_first());
        assert(xs.map_values(|x: WithPos<Name>| name_plan(x)).drop_first() =~= xs.drop_first().map_values(
            |x: WithPos<Name>| name_plan(x),
        ));
    }
}

/// Searching a list of names searches every item, in order: the reference search
/// collects what each item collects, one after the other, and the cursor
/// search finds what the first item that finds something finds.
pub proof fn lemma_names_searches_every_item(xs: Seq<WithPos<Name>>, decl_pos: SrcPos, c: ItemAtCursor)
    ensures
        references_of(names_plan(xs), decl_pos) == concat_references(
            xs.map_values(|x: WithPos<Name>| name_plan(x)),
            decl_pos,
        ),
        cursor_finds(names_plan(xs), c) == first_found(xs.map_values(|x: WithPos<Name>| name_plan(x)), c),
{
    lemma_names_is_sequence(xs);
    lemma_references_of_sequence(xs.map_values(|x: WithPos<Name>| name_plan(x)), decl_pos);
    lemma_cursor_sequence(xs.map_values(|x: WithPos<Name>| name_plan(x)), c);
}

proof fn lemma_library_clause_names_is_sequence(xs: Seq<Ident>)
    ensures
        library_clause_names_plan(xs) == sequence(xs.map_values(|x: Ident| library_name_plan(x))),
    decreases xs.len(),
{
    if xs.len() > 0 {
        lemma_library_clause_names_is_sequence(xs.drop_first());
        assert(xs.map_values(|x: Ident| library_name_plan(x)).drop_first() =~= xs.drop_first().map_values(
            |x: Ident| library_name_plan(x),
        ));
    }
}

/// Searching the names of a library clause searches every item, in order: the reference search
/// collects what each item collects, one after the other, and the cursor
/// search finds what the first item that finds something finds.
pub proof fn lemma_library_clause_names_searches_every_item(xs: Seq<Ident>, decl_pos: SrcPos, c: ItemAtCursor)
    ensures
        references_of(library_clause_names_plan(xs), decl_pos) == concat_references(
            xs.map_values(|x: Ident| library_name_plan(x)),
            decl_pos,
        ),
        cursor_finds(library_clause_names_plan(xs), c) == first_found(xs.map_values(|x: Ident| library_name_plan(x)), c),
{
    lemma_library_clause_names_is_sequence(xs);
    lemma_references_of_sequence(xs.map_values(|x: Ident| library_name_plan(x)), decl_pos);
    lemma_cursor_sequence(xs.map_values(|x: Ident| library_name_plan(x)), c);
}

proof fn lemma_context_clause_is_sequence(xs: Seq<WithPos<ContextItem>>)
    ensures
        context_clause_plan(xs) == sequence(xs.map_values(|x: WithPos<ContextItem>| context_item_plan(x))),
    decreases xs.len(),
{
    if xs.len() > 0 {
        lemma_context_clause_is_sequence(xs.drop_first());
        assert(xs.map_values(|x: WithPos<ContextItem>| context_item_plan(x)).drop_first() =~= xs.drop_first().map_values(
            |x: WithPos<ContextItem>| context_item_plan(x),
        ));
    }
}

/// Searching a context clause searches every item, in order: the reference search
/// collects what each item collects, one after the other, and the cursor
/// search finds what the first item that finds something finds.
pub proof fn lemma_context_clause_searches_every_item(xs: Seq<WithPos<ContextItem>>, decl_pos: SrcPos, c: ItemAtCursor)
    ensures
        references_of(context_clause_plan(xs), decl_pos) == concat_references(
            xs.map_values(|x: WithPos<ContextItem>| context_item_plan(x)),
            decl_pos,
        ),
        cursor_finds(context_clause_plan(xs), c) == first_found(xs.map_values(|x: WithPos<ContextItem>| context_item_plan(x)), c),
{
    lemma_context_clause_is_sequence(xs);
    lemma_references_of_sequence(xs.map_values(|x: WithPos<ContextItem>| context_item_plan(x)), decl_pos);
    lemma_cursor_sequence(xs.map_values(|x: WithPos<ContextItem>| context_item_plan(x)), c);
}

// Statements, expressions and subtypes

/// The label of a sequential statement names the statement: the search of a
/// labelled statement finds the label before anything else.
pub proof fn lemma_sequential_statement_finds_its_label_first(x: LabeledSequentialStatement, label: Ident, c: ItemAtCursor)
    requires
        x.label == Some(label),
    ensures
        finds_name_first(sequential_statement_plan(x), label.pos, c),
{
    lemma_finds_name_first_then(Plan::Ask(Hook::DeclPos(label.pos)), match sequential_statement_plan(x) {
        Plan::Then(_, b) => *b,
        _ => Plan::Nil,
    }, label.pos, c);
    lemma_references_of_ask(Hook::DeclPos(label.pos), label.pos);
}

/// The label of a concurrent statement names the statement: the search of a
/// labelled statement finds the label before anything else.
pub proof fn lemma_concurrent_statement_finds_its_label_first(x: LabeledConcurrentStatement, label: Ident, c: ItemAtCursor)
    requires
        x.label == Some(label),
    ensures
        finds_name_first(concurrent_statement_plan(x), label.pos, c),
{
    lemma_finds_name_first_then(Plan::Ask(Hook::DeclPos(label.pos)), match concurrent_statement_plan(x) {
        Plan::Then(_, b) => *b,
        _ => Plan::Nil,
    }, label.pos, c);
    lemma_references_of_ask(Hook::DeclPos(label.pos), label.pos);
}

/// An object declaration is searched in the order: its name, its subtype
/// indication, its initial value.
pub proof fn lemma_object_declaration_searches_every_part(x: ObjectDeclaration, decl_pos: SrcPos)
    ensures
        references_of(object_declaration_plan(x), decl_pos) == references_at(Hook::DeclPos(x.ident.pos), decl_pos)
            + (references_of(subtype_indication_plan(x.subtype_indication), decl_pos)
            + match x.expression {
                Some(e) => references_of(expression_plan(e), decl_pos),
                None => Seq::<SrcPos>::empty(),
            }),
{
    let value = match x.expression {
        Some(e) => expression_plan(e),
        None => Plan::Nil,
    };
    lemma_references_of_followed_by(subtype_indication_plan(x.subtype_indication), value, decl_pos);
    lemma_references_of_followed_by(Plan::Ask(Hook::DeclPos(x.ident.pos)), followed_by(
        subtype_indication_plan(x.subtype_indication),
        value,
    ), decl_pos);
    lemma_references_of_ask(Hook::DeclPos(x.ident.pos), decl_pos);
}

/// A subtype indication is searched in the order: its type mark, then its
/// constraint.
pub proof fn lemma_subtype_indication_searches_every_part(x: SubtypeIndication, decl_pos: SrcPos, c: ItemAtCursor)
    ensures
        references_of(subtype_indication_plan(x), decl_pos) == references_of(selected_name_plan(x.type_mark), decl_pos)
            + match x.constraint {
                Some(k) => references_of(subtype_constraint_plan(k), decl_pos),
                None => Seq::<SrcPos>::empty(),
            },
        cursor_finds(subtype_indication_plan(x), c) == match cursor_finds(selected_name_plan(x.type_mark), c) {
            SearchResult::Found(item) => SearchResult::Found(item),
            SearchResult::NotFound => match x.constraint {
                Some(k) => cursor_finds(subtype_constraint_plan(k), c),
                None => SearchResult::NotFound,
            },
        },
{
    let rest = match x.constraint {
        Some(k) => subtype_constraint_plan(k),
        None => Plan::Nil,
    };
    lemma_references_of_followed_by(selected_name_plan(x.type_mark), rest, decl_pos);
    lemma_cursor_followed_by(selected_name_plan(x.type_mark), rest, c);
}

/// A binary expression is searched left operand first, then right operand.
pub proof fn lemma_binary_expression_searches_both_operands(
    pos: SrcPos,
    op: WithPos<Operator>,
    left: WithPos<Expression>,
    right: WithPos<Expression>,
    decl_pos: SrcPos,
)
    ensures
        references_of(pos_expr_plan(pos, Expression::Binary(op, Box::new(left), Box::new(right))), decl_pos)
            == references_of(expression_plan(left), decl_pos) + references_of(expression_plan(right), decl_pos),
{
    let body = followed_by(expression_plan(left), expression_plan(right));
    lemma_references_of_followed_by(Plan::Ask(Hook::WithPos(pos)), body, decl_pos);
    lemma_references_of_ask(Hook::WithPos(pos), decl_pos);
    lemma_references_of_followed_by(expression_plan(left), expression_plan(right), decl_pos);
    assert(Seq::<SrcPos>::empty() + references_of(body, decl_pos) =~= references_of(body, decl_pos));
}

/// A range constraint is searched left bound first, then right bound.
pub proof fn lemma_range_constraint_searches_both_bounds(x: RangeConstraint, decl_pos: SrcPos)
    ensures
        references_of(range_constraint_plan(x), decl_pos) == references_of(expression_plan(*x.left_expr), decl_pos)
            + references_of(expression_plan(*x.right_expr), decl_pos),
{
    lemma_references_of_followed_by(expression_plan(*x.left_expr), expression_plan(*x.right_expr), decl_pos);
}

/// A generate body is searched declarations first, then statements.
pub proof fn lemma_generate_body_searches_every_part(x: GenerateBody, decl_pos: SrcPos)
    ensures
        references_of(generate_body_plan(x), decl_pos) == match x.decl {
            Some(d) => references_of(declarations_plan(d@), decl_pos),
            None => Seq::<SrcPos>::empty(),
        } + references_of(concurrent_statements_plan(x.statements@), decl_pos),
{
    let first = match x.decl {
        Some(d) => declarations_plan(d@),
        None => Plan::Nil,
    };
    lemma_references_of_followed_by(first, concurrent_statements_plan(x.statements@), decl_pos);
}

// Design units

proof fn lemma_source_guard(src: crate::source::Source, q: Plan, decl_pos: SrcPos, c: ItemAtCursor)
    ensures
        references_of(guard(Hook::Source(src), q), decl_pos) == references_of(q, decl_pos),
        c.spec_source() == src ==> cursor_finds(guard(Hook::Source(src), q), c) == cursor_finds(q, c),
{
    lemma_references_of_guard(Hook::Source(src), q, decl_pos);
    assert(Seq::<SrcPos>::empty() + references_of(q, decl_pos) =~= references_of(q, decl_pos));
}

/// What a plan list finds contains what each of its plans finds.
pub proof fn lemma_concat_references_contains(ps: Seq<Plan>, i: int, decl_pos: SrcPos, q: SrcPos)
    requires
        0 <= i < ps.len(),
        references_of(ps[i], decl_pos).contains(q),
    ensures
        concat_references(ps, decl_pos).contains(q),
    decreases ps.len(),
{
    let here = references_of(ps[0], decl_pos);
    let rest = concat_references(ps.drop_first(), decl_pos);
    if i == 0 {
        let k = choose|k: int| 0 <= k < here.len() && here[k] == q;
        assert((here + rest)[k] == q);
    } else {
        assert(ps.drop_first()[i - 1] == ps[i]);
        lemma_concat_references_contains(ps.drop_first(), i - 1, decl_pos, q);
        let k = choose|k: int| 0 <= k < rest.len() && rest[k] == q;
        assert((here + rest)[here.len() + k] == q);
    }
}

/// An entity is searched in the order: context clause, its own name,
/// generics, ports, declarations, statements. In the cursor's file, what its
/// context clause finds is what the entity finds.
pub proof fn lemma_entity_searches_every_part(x: EntityUnit, decl_pos: SrcPos, c: ItemAtCursor)
    ensures
        references_of(entity_unit_plan(x), decl_pos) == references_of(context_clause_plan(x.context_clause@), decl_pos)
            + (references_at(Hook::DeclPos(x.unit.ident.pos), decl_pos)
            + (references_of(optional_interface_list_plan(x.unit.generic_clause), decl_pos)
            + (references_of(optional_interface_list_plan(x.unit.port_clause), decl_pos)
            + (references_of(declarations_plan(x.unit.decl@), decl_pos)
            + references_of(concurrent_statements_plan(x.unit.statements@), decl_pos))))),
        c.spec_source() == x.unit.ident.pos.source && cursor_finds(context_clause_plan(x.context_clause@), c) is Found
            ==> cursor_finds(entity_unit_plan(x), c) == cursor_finds(context_clause_plan(x.context_clause@), c),
{
    let p5 = followed_by(declarations_plan(x.unit.decl@), concurrent_statements_plan(x.unit.statements@));
    let p4 = followed_by(optional_interface_list_plan(x.unit.port_clause), p5);
    let p3 = followed_by(optional_interface_list_plan(x.unit.generic_clause), p4);
    let p2 = followed_by(Plan::Ask(Hook::DeclPos(x.unit.ident.pos)), p3);
    let p1 = followed_by(context_clause_plan(x.context_clause@), p2);
    lemma_source_guard(x.unit.ident.pos.source, p1, decl_pos, c);
    lemma_references_of_followed_by(declarations_plan(x.unit.decl@), concurrent_statements_plan(x.unit.statements@), decl_pos);
    lemma_references_of_followed_by(optional_interface_list_plan(x.unit.port_clause), p5, decl_pos);
    lemma_references_of_followed_by(optional_interface_list_plan(x.unit.generic_clause), p4, decl_pos);
    lemma_references_of_followed_by(Plan::Ask(Hook::DeclPos(x.unit.ident.pos)), p3, decl_pos);
    lemma_references_of_ask(Hook::DeclPos(x.unit.ident.pos), decl_pos);
    lemma_references_of_followed_by(context_clause_plan(x.context_clause@), p2, decl_pos);
    lemma_cursor_followed_by(context_clause_plan(x.context_clause@), p2, c);
}

/// The name of every port of an entity is among the references to it that
/// the search of the entity finds.
pub proof fn lemma_entity_finds_its_ports(x: EntityUnit, ports: Vec<InterfaceDeclaration>, i: int, pos: SrcPos, c: ItemAtCursor)
    requires
        x.unit.port_clause == Some(ports),
        0 <= i < ports@.len(),
        interface_declared_name(ports@[i]) == Some(pos),
    ensures
        references_of(entity_unit_plan(x), pos).contains(pos),
{
    let ps = ports@.map_values(|d: InterfaceDeclaration| interface_declaration_plan(d));
    lemma_interface_declaration_finds_its_name_first(ports@[i], pos, c);
    assert(ps[i] == interface_declaration_plan(ports@[i]));
    assert(references_of(ps[i], pos)[0] == pos);
    lemma_concat_references_contains(ps, i, pos, pos);
    lemma_interface_declarations_searches_every_item(ports@, pos, c);
    lemma_entity_searches_every_part(x, pos, c);
    let port_refs = references_of(optional_interface_list_plan(x.unit.port_clause), pos);
    let k = choose|k: int| 0 <= k < port_refs.len() && port_refs[k] == pos;
    let a = references_of(context_clause_plan(x.context_clause@), pos);
    let b = references_at(Hook::DeclPos(x.unit.ident.pos), pos);
    let g = references_of(optional_interface_list_plan(x.unit.generic_clause), pos);
    let rest = references_of(declarations_plan(x.unit.decl@), pos)
        + references_of(concurrent_statements_plan(x.unit.statements@), pos);
    assert((a + (b + (g + (port_refs + rest))))[a.len() + b.len() + g.len() + k] == pos);
}

/// An architecture is searched in the order: context clause, the entity
/// name it refers to, declarations, statements. In the cursor's file, what
/// its context clause finds is what the architecture finds.
pub proof fn lemma_architecture_searches_every_part(x: ArchitectureUnit, decl_pos: SrcPos, c: ItemAtCursor)
    ensures
        references_of(architecture_unit_plan(x), decl_pos) == references_of(context_clause_plan(x.context_clause@), decl_pos)
            + (references_at(Hook::IdentRef(x.unit.entity_name), decl_pos)
            + (references_of(declarations_plan(x.unit.decl@), decl_pos)
            + references_of(concurrent_statements_plan(x.unit.statements@), decl_pos))),
        c.spec_source() == x.unit.ident.pos.source && cursor_finds(context_clause_plan(x.context_clause@), c) is Found
            ==> cursor_finds(architecture_unit_plan(x), c) == cursor_finds(context_clause_plan(x.context_clause@), c),
{
    let p3 = followed_by(declarations_plan(x.unit.decl@), concurrent_statements_plan(x.unit.statements@));
    let p2 = followed_by(Plan::Ask(Hook::IdentRef(x.unit.entity_name)), p3);
    let p1 = followed_by(context_clause_plan(x.context_clause@), p2);
    lemma_source_guard(x.unit.ident.pos.source, p1, decl_pos, c);
    lemma_references_of_followed_by(declarations_plan(x.unit.decl@), concurrent_statements_plan(x.unit.statements@), decl_pos);
    lemma_references_of_followed_by(Plan::Ask(Hook::IdentRef(x.unit.entity_name)), p3, decl_pos);
    lemma_references_of_ask(Hook::IdentRef(x.unit.entity_name), decl_pos);
    lemma_references_of_followed_by(context_clause_plan(x.context_clause@), p2, decl_pos);
    lemma_cursor_followed_by(context_clause_plan(x.context_clause@), p2, c);
}

/// A package is searched in the order: context clause, its own name,
/// generics, declarations. In the cursor's file, what its context clause
/// finds is what the package finds.
pub proof fn lemma_package_searches_every_part(x: PackageUnit, decl_pos: SrcPos, c: ItemAtCursor)
    ensures
        references_of(package_unit_plan(x), decl_pos) == references_of(context_clause_plan(x.context_clause@), decl_pos)
            + (references_at(Hook::DeclPos(x.unit.ident.pos), decl_pos)
            + (references_of(optional_interface_list_plan(x.unit.generic_clause), decl_pos)
            + references_of(declarations_plan(x.unit.decl@), decl_pos))),
        c.spec_source() == x.unit.ident.pos.source && cursor_finds(context_clause_plan(x.context_clause@), c) is Found
            ==> cursor_finds(package_unit_plan(x), c) == cursor_finds(context_clause_plan(x.context_clause@), c),
{
    let p3 = followed_by(optional_interface_list_plan(x.unit.generic_clause), declarations_plan(x.unit.decl@));
    let p2 = followed_by(Plan::Ask(Hook::DeclPos(x.unit.ident.pos)), p3);
    let p1 = followed_by(context_clause_plan(x.context_clause@), p2);
    lemma_source_guard(x.unit.ident.pos.source, p1, decl_pos, c);
    lemma_references_of_followed_by(optional_interface_list_plan(x.unit.generic_clause), declarations_plan(x.unit.decl@), decl_pos);
    lemma_references_of_followed_by(Plan::Ask(Hook::DeclPos(x.unit.ident.pos)), p3, decl_pos);
    lemma_references_of_ask(Hook::DeclPos(x.unit.ident.pos), decl_pos);
    lemma_references_of_followed_by(context_clause_plan(x.context_clause@), p2, decl_pos);
    lemma_cursor_followed_by(context_clause_plan(x.context_clause@), p2, c);
}

/// A package body is searched in the order: the package name it refers to,
/// context clause, declarations. In the cursor's file, a cursor on that name
/// finds the package it refers to.
pub proof fn lemma_package_body_searches_every_part(x: PackageBodyUnit, decl_pos: SrcPos, c: ItemAtCursor)
    ensures
        references_of(package_body_unit_plan(x), decl_pos) == references_at(Hook::IdentRef(x.unit.ident), decl_pos)
            + (references_of(context_clause_plan(x.context_clause@), decl_pos)
            + references_of(declarations_plan(x.unit.decl@), decl_pos)),
        c.spec_source() == x.unit.ident.item.pos.source && c.spec_is_inside(x.unit.ident.item.pos)
            && x.unit.ident.reference is Some
            ==> cursor_finds(package_body_unit_plan(x), c) == SearchResult::Found(x.unit.ident.reference->0),
{
    let p2 = followed_by(context_clause_plan(x.context_clause@), declarations_plan(x.unit.decl@));
    let p1 = followed_by(Plan::Ask(Hook::IdentRef(x.unit.ident)), p2);
    lemma_source_guard(x.unit.ident.item.pos.source, p1, decl_pos, c);
    lemma_references_of_followed_by(context_clause_plan(x.context_clause@), declarations_plan(x.unit.decl@), decl_pos);
    lemma_references_of_followed_by(Plan::Ask(Hook::IdentRef(x.unit.ident)), p2, decl_pos);
    lemma_references_of_ask(Hook::IdentRef(x.unit.ident), decl_pos);
    lemma_cursor_followed_by(Plan::Ask(Hook::IdentRef(x.unit.ident)), p2, c);
}

/// A package instance is searched in the order: context clause, its own
/// name, the name of the instantiated package. In the cursor's file, what its
/// context clause finds is what the instance finds.
pub proof fn lemma_package_instance_searches_every_part(x: PackageInstanceUnit, decl_pos: SrcPos, c: ItemAtCursor)
    ensures
        references_of(package_instance_unit_plan(x), decl_pos) == references_of(context_clause_plan(x.context_clause@), decl_pos)
            + (references_at(Hook::DeclPos(x.unit.ident.pos), decl_pos)
            + references_of(selected_name_plan(x.unit.package_name), decl_pos)),
        c.spec_source() == x.unit.ident.pos.source && cursor_finds(context_clause_plan(x.context_clause@), c) is Found
            ==> cursor_finds(package_instance_unit_plan(x), c) == cursor_finds(context_clause_plan(x.context_clause@), c),
{
    let p2 = followed_by(Plan::Ask(Hook::DeclPos(x.unit.ident.pos)), selected_name_plan(x.unit.package_name));
    let p1 = followed_by(context_clause_plan(x.context_clause@), p2);
    lemma_source_guard(x.unit.ident.pos.source, p1, decl_pos, c);
    lemma_references_of_followed_by(Plan::Ask(Hook::DeclPos(x.unit.ident.pos)), selected_name_plan(x.unit.package_name), decl_pos);
    lemma_references_of_ask(Hook::DeclPos(x.unit.ident.pos), decl_pos);
    lemma_references_of_followed_by(context_clause_plan(x.context_clause@), p2, decl_pos);
    lemma_cursor_followed_by(context_clause_plan(x.context_clause@), p2, c);
}

/// A configuration is searched in the order: its own name, context clause,
/// entity name. In the cursor's file, a cursor on its name finds the
/// configuration.
pub proof fn lemma_configuration_searches_every_part(x: ConfigurationUnit, decl_pos: SrcPos, c: ItemAtCursor)
    ensures
        references_of(configuration_unit_plan(x), decl_pos) == references_at(Hook::DeclPos(x.unit.ident.pos), decl_pos)
            + (references_of(context_clause_plan(x.context_clause@), decl_pos)
            + references_of(selected_name_plan(x.unit.entity_name), decl_pos)),
        c.spec_source() == x.unit.ident.pos.source && c.spec_is_inside(x.unit.ident.pos)
            ==> cursor_finds(configuration_unit_plan(x), c) == SearchResult::Found(x.unit.ident.pos),
{
    let p2 = followed_by(context_clause_plan(x.context_clause@), selected_name_plan(x.unit.entity_name));
    let p1 = followed_by(Plan::Ask(Hook::DeclPos(x.unit.ident.pos)), p2);
    lemma_source_guard(x.unit.ident.pos.source, p1, decl_pos, c);
    lemma_references_of_followed_by(context_clause_plan(x.context_clause@), selected_name_plan(x.unit.entity_name), decl_pos);
    lemma_references_of_followed_by(Plan::Ask(Hook::DeclPos(x.unit.ident.pos)), p2, decl_pos);
    lemma_references_of_ask(Hook::DeclPos(x.unit.ident.pos), decl_pos);
    lemma_cursor_followed_by(Plan::Ask(Hook::DeclPos(x.unit.ident.pos)), p2, c);
}

/// A context declaration is searched in the order: its own name, then its
/// items. In the cursor's file, a cursor on its name finds the declaration.
pub proof fn lemma_context_declaration_searches_every_part(x: ContextDeclaration, decl_pos: SrcPos, c: ItemAtCursor)
    ensures
        references_of(context_declaration_plan(x), decl_pos) == references_at(Hook::DeclPos(x.ident.pos), decl_pos)
            + references_of(context_clause_plan(x.items@), decl_pos),
        c.spec_source() == x.ident.pos.source && c.spec_is_inside(x.ident.pos)
            ==> cursor_finds(context_declaration_plan(x), c) == SearchResult::Found(x.ident.pos),
{
    let p1 = followed_by(Plan::Ask(Hook::DeclPos(x.ident.pos)), context_clause_plan(x.items@));
    lemma_source_guard(x.ident.pos.source, p1, decl_pos, c);
    lemma_references_of_followed_by(Plan::Ask(Hook::DeclPos(x.ident.pos)), context_clause_plan(x.items@), decl_pos);
    lemma_references_of_ask(Hook::DeclPos(x.ident.pos), decl_pos);
    lemma_cursor_followed_by(Plan::Ask(Hook::DeclPos(x.ident.pos)), context_clause_plan(x.items@), c);
}

} // verus!
