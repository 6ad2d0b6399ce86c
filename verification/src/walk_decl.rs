//! Searching declarations and statements.

use vstd::prelude::*;
use crate::ast::{
    ArrayIndex, AssignmentRightHand, Attribute, ConcurrentStatement, Conditional, Alternative,
    Declaration, ElementDeclaration, Expression, FunctionSpecification, GenerateBody,
    InstantiatedUnit, InstantiationStatement, InterfaceDeclaration, LabeledConcurrentStatement,
    LabeledSequentialStatement, ObjectDeclaration, ProcedureSpecification,
    ProtectedTypeDeclarativeItem, SequentialStatement, SubprogramDeclaration, Target,
    TypeDeclaration, TypeDefinition,
};
use crate::search::{followed_by, guard, run, Hook, Plan, SearchResult, SearchState, Searcher};
use crate::source::{Ident, WithPos};
use crate::walk_expr::{
    discrete_range_plan, expression_plan, function_call_plan, names_plan, pos_name_plan,
    search_discrete_range, search_expression, search_function_call, search_names,
    search_pos_name, search_selected_name, search_subtype_indication, selected_name_plan,
    subtype_indication_plan,
};

verus! {

/// The label of a statement, when it has one, is the position where a named
/// entity is declared.
pub open spec fn label_plan(label: Option<Ident>) -> Plan {
    match label {
        Some(l) => Plan::Ask(Hook::DeclPos(l.pos)),
        None => Plan::Nil,
    }
}

/// An object declaration: the position of its name, its subtype indication,
/// then its initial value.
pub open spec fn object_declaration_plan(x: ObjectDeclaration) -> Plan {
    followed_by(
        Plan::Ask(Hook::DeclPos(x.ident.pos)),
        followed_by(
            subtype_indication_plan(x.subtype_indication),
            match x.expression {
                Some(expr) => expression_plan(expr),
                None => Plan::Nil,
            },
        ),
    )
}

/// An element of a record type: its subtype indication.
pub open spec fn element_declaration_plan(x: ElementDeclaration) -> Plan {
    subtype_indication_plan(x.subtype)
}

/// The elements of a record type, one after the other.
pub open spec fn element_declarations_plan(xs: Seq<ElementDeclaration>) -> Plan
    decreases xs,
{
    if xs.len() == 0 {
        Plan::Nil
    } else {
        followed_by(element_declaration_plan(xs[0]), element_declarations_plan(xs.drop_first()))
    }
}

/// An index of an array type: its type mark or its discrete range.
pub open spec fn array_index_plan(x: ArrayIndex) -> Plan {
    match x {
        ArrayIndex::IndexSubtypeDefintion(type_mark) => selected_name_plan(type_mark),
        ArrayIndex::Discrete(drange) => discrete_range_plan(drange),
    }
}

/// The indexes of an array type, one after the other.
pub open spec fn array_indexes_plan(xs: Seq<ArrayIndex>) -> Plan
    decreases xs,
{
    if xs.len() == 0 {
        Plan::Nil
    } else {
        followed_by(array_index_plan(xs[0]), array_indexes_plan(xs.drop_first()))
    }
}

/// A type declaration: the position of its name, then what its definition
/// holds. Enumeration, integer, incomplete and file types hold nothing that
/// is searched.
pub open spec fn type_declaration_plan(x: TypeDeclaration) -> Plan
    decreases x,
{
    followed_by(
        Plan::Ask(Hook::DeclPos(x.ident.pos)),
        match x.def {
            TypeDefinition::ProtectedBody(body) => declarations_plan(body.decl@),
            TypeDefinition::Protected(prot_decl) => protected_items_plan(prot_decl.items@),
            TypeDefinition::Record(element_decls) => element_declarations_plan(element_decls@),
            TypeDefinition::Access(subtype_indication) => subtype_indication_plan(subtype_indication),
            TypeDefinition::Array(indexes, subtype_indication) => followed_by(
                array_indexes_plan(indexes@),
                subtype_indication_plan(subtype_indication),
            ),
            TypeDefinition::Subtype(subtype_indication) => subtype_indication_plan(subtype_indication),
            _ => Plan::Nil,
        },
    )
}

pub open spec fn protected_item_plan(x: ProtectedTypeDeclarativeItem) -> Plan
    decreases x,
{
    match x {
        ProtectedTypeDeclarativeItem::Subprogram(subprogram) => subprogram_declaration_plan(subprogram),
    }
}

/// The items of a protected type declaration, one after the other.
pub open spec fn protected_items_plan(xs: Seq<ProtectedTypeDeclarativeItem>) -> Plan
    decreases xs,
{
    if xs.len() == 0 {
        Plan::Nil
    } else {
        followed_by(protected_item_plan(xs[0]), protected_items_plan(xs.drop_first()))
    }
}

/// A declaration: the searcher is asked about it first; when the search may
/// go on, what the declaration holds is searched by its kind. File
/// declarations and attribute specifications hold nothing that is searched.
pub open spec fn declaration_plan(d: Declaration) -> Plan
    decreases d,
{
    guard(
        Hook::Declaration(d),
        match d {
            Declaration::Object(object) => object_declaration_plan(object),
            Declaration::Type(typ) => type_declaration_plan(typ),
            Declaration::SubprogramBody(body) => followed_by(
                subprogram_declaration_plan(body.specification),
                followed_by(
                    declarations_plan(body.declarations@),
                    sequential_statements_plan(body.statements@),
                ),
            ),
            Declaration::SubprogramDeclaration(decl) => subprogram_declaration_plan(decl),
            Declaration::Attribute(Attribute::Declaration(decl)) => selected_name_plan(decl.type_mark),
            Declaration::Alias(decl) => match decl.subtype_indication {
                Some(subtype_indication) => subtype_indication_plan(subtype_indication),
                None => Plan::Nil,
            },
            Declaration::Use(use_clause) => guard(
                Hook::WithPos(use_clause.pos),
                names_plan(use_clause.item.name_list@),
            ),
            Declaration::Component(component) => followed_by(
                Plan::Ask(Hook::DeclPos(component.ident.pos)),
                followed_by(
                    interface_declarations_plan(component.generic_list@),
                    interface_declarations_plan(component.port_list@),
                ),
            ),
            _ => Plan::Nil,
        },
    )
}

/// The declarations of a declarative part, one after the other.
pub open spec fn declarations_plan(xs: Seq<Declaration>) -> Plan
    decreases xs,
{
    if xs.len() == 0 {
        Plan::Nil
    } else {
        followed_by(declaration_plan(xs[0]), declarations_plan(xs.drop_first()))
    }
}

/// An interface declaration: the searcher is asked about it first; when the
/// search may go on, an object's name and subtype, or a subprogram's
/// declaration, are searched. Interface files and types hold nothing that is
/// searched.
pub open spec fn interface_declaration_plan(d: InterfaceDeclaration) -> Plan
    decreases d,
{
    guard(
        Hook::InterfaceDeclaration(d),
        match d {
            InterfaceDeclaration::Object(decl) => followed_by(
                Plan::Ask(Hook::DeclPos(decl.ident.pos)),
                subtype_indication_plan(decl.subtype_indication),
            ),
            InterfaceDeclaration::Subprogram(decl, _) => subprogram_declaration_plan(decl),
            _ => Plan::Nil,
        },
    )
}

/// The interface declarations of a list, one after the other.
pub open spec fn interface_declarations_plan(xs: Seq<InterfaceDeclaration>) -> Plan
    decreases xs,
{
    if xs.len() == 0 {
        Plan::Nil
    } else {
        followed_by(interface_declaration_plan(xs[0]), interface_declarations_plan(xs.drop_first()))
    }
}

/// An interface list that may be absent.
pub open spec fn optional_interface_list_plan(x: Option<Vec<InterfaceDeclaration>>) -> Plan {
    match x {
        Some(list) => interface_declarations_plan(list@),
        None => Plan::Nil,
    }
}

pub open spec fn subprogram_declaration_plan(x: SubprogramDeclaration) -> Plan
    decreases x,
{
    match x {
        SubprogramDeclaration::Function(decl) => function_specification_plan(decl),
        SubprogramDeclaration::Procedure(decl) => procedure_specification_plan(decl),
    }
}

/// A procedure specification: the position of its designator, then its
/// parameters.
pub open spec fn procedure_specification_plan(x: ProcedureSpecification) -> Plan
    decreases x,
{
    followed_by(
        Plan::Ask(Hook::DeclPos(x.designator.pos)),
        interface_declarations_plan(x.parameter_list@),
    )
}

/// A function specification: the position of its designator, its
/// parameters, then its return type.
pub open spec fn function_specification_plan(x: FunctionSpecification) -> Plan
    decreases x,
{
    followed_by(
        Plan::Ask(Hook::DeclPos(x.designator.pos)),
        followed_by(interface_declarations_plan(x.parameter_list@), selected_name_plan(x.return_type)),
    )
}

/// A branch of a conditional assignment: the value, then the condition.
pub open spec fn conditional_expression_plan(x: Conditional<WithPos<Expression>>) -> Plan {
    followed_by(expression_plan(x.item), expression_plan(x.condition))
}

/// The branches of a conditional assignment, one after the other.
pub open spec fn conditional_expressions_plan(xs: Seq<Conditional<WithPos<Expression>>>) -> Plan
    decreases xs,
{
    if xs.len() == 0 {
        Plan::Nil
    } else {
        followed_by(conditional_expression_plan(xs[0]), conditional_expressions_plan(xs.drop_first()))
    }
}

/// A sequential statement: its label, then, by its kind, the returned value,
/// the procedure call, or the target and the right hand side of a variable
/// assignment. A target aggregate and a selected right hand side are not
/// searched, nor are report and null statements.
pub open spec fn sequential_statement_plan(x: LabeledSequentialStatement) -> Plan {
    followed_by(
        label_plan(x.label),
        match x.statement {
            SequentialStatement::Return(ret) => match ret.expression {
                Some(expr) => expression_plan(expr),
                None => Plan::Nil,
            },
            SequentialStatement::ProcedureCall(pcall) => function_call_plan(pcall),
            SequentialStatement::VariableAssignment(assign) => followed_by(
                match assign.target.item {
                    Target::Name(name) => pos_name_plan(assign.target.pos, name),
                    Target::Aggregate(_) => Plan::Nil,
                },
                match assign.rhs {
                    AssignmentRightHand::Simple(expr) => expression_plan(expr),
                    AssignmentRightHand::Conditional(conditionals) => followed_by(
                        conditional_expressions_plan(conditionals.conditionals@),
                        match conditionals.else_item {
                            Some(expr) => expression_plan(expr),
                            None => Plan::Nil,
                        },
                    ),
                    AssignmentRightHand::Selected(_) => Plan::Nil,
                },
            ),
            _ => Plan::Nil,
        },
    )
}

/// The statements of a sequence, one after the other.
pub open spec fn sequential_statements_plan(xs: Seq<LabeledSequentialStatement>) -> Plan
    decreases xs,
{
    if xs.len() == 0 {
        Plan::Nil
    } else {
        followed_by(sequential_statement_plan(xs[0]), sequential_statements_plan(xs.drop_first()))
    }
}

/// A generate body: its declarations, then its statements.
pub open spec fn generate_body_plan(x: GenerateBody) -> Plan
    decreases x,
{
    followed_by(
        match x.decl {
            Some(decl) => declarations_plan(decl@),
            None => Plan::Nil,
        },
        concurrent_statements_plan(x.statements@),
    )
}

/// A branch of an if-generate statement: only its body.
pub open spec fn generate_conditional_plan(x: Conditional<GenerateBody>) -> Plan
    decreases x,
{
    generate_body_plan(x.item)
}

/// The branches of an if-generate statement, one after the other.
pub open spec fn generate_conditionals_plan(xs: Seq<Conditional<GenerateBody>>) -> Plan
    decreases xs,
{
    if xs.len() == 0 {
        Plan::Nil
    } else {
        followed_by(generate_conditional_plan(xs[0]), generate_conditionals_plan(xs.drop_first()))
    }
}

/// An alternative of a case-generate statement: only its body.
pub open spec fn generate_alternative_plan(x: Alternative<GenerateBody>) -> Plan
    decreases x,
{
    generate_body_plan(x.item)
}

/// The alternatives of a case-generate statement, one after the other.
pub open spec fn generate_alternatives_plan(xs: Seq<Alternative<GenerateBody>>) -> Plan
    decreases xs,
{
    if xs.len() == 0 {
        Plan::Nil
    } else {
        followed_by(generate_alternative_plan(xs[0]), generate_alternatives_plan(xs.drop_first()))
    }
}

/// An instantiation statement: only the name of an instantiated entity.
pub open spec fn instantiation_plan(x: InstantiationStatement) -> Plan {
    match x.unit {
        InstantiatedUnit::Entity(ent_name, _) => selected_name_plan(ent_name),
        _ => Plan::Nil,
    }
}

/// A concurrent statement: its label, then what it holds by its kind.
/// Concurrent procedure calls are not searched.
pub open spec fn concurrent_statement_plan(x: LabeledConcurrentStatement) -> Plan
    decreases x,
{
    followed_by(
        label_plan(x.label),
        match x.statement {
            ConcurrentStatement::Block(block) => followed_by(
                declarations_plan(block.decl@),
                concurrent_statements_plan(block.statements@),
            ),
            ConcurrentStatement::Process(process) => followed_by(
                declarations_plan(process.decl@),
                sequential_statements_plan(process.statements@),
            ),
            ConcurrentStatement::ForGenerate(gen) => generate_body_plan(gen.body),
            ConcurrentStatement::IfGenerate(gen) => followed_by(
                generate_conditionals_plan(gen.conditionals@),
                match gen.else_item {
                    Some(body) => generate_body_plan(body),
                    None => Plan::Nil,
                },
            ),
            ConcurrentStatement::CaseGenerate(gen) => generate_alternatives_plan(gen.alternatives@),
            ConcurrentStatement::Instance(inst) => instantiation_plan(inst),
            ConcurrentStatement::ProcedureCall(_) => Plan::Nil,
        },
    )
}

/// The concurrent statements of a list, one after the other.
pub open spec fn concurrent_statements_plan(xs: Seq<LabeledConcurrentStatement>) -> Plan
    decreases xs,
{
    if xs.len() == 0 {
        Plan::Nil
    } else {
        followed_by(concurrent_statement_plan(xs[0]), concurrent_statements_plan(xs.drop_first()))
    }
}

// The searches. Each one is proved to do what its plan says.

pub fn search_label<T, S: Searcher<T>>(label: &Option<Ident>, searcher: &mut S) -> (r: SearchResult<T>)
    ensures
        (final(searcher)@, r) == run::<T, S>(label_plan(*label), old(searcher)@),
{
    match label {
        Some(l) => searcher.search_decl_pos(l.pos()).or_not_found(),
        None => SearchResult::NotFound,
    }
}

pub fn search_object_declaration<T, S: Searcher<T>>(x: &ObjectDeclaration, searcher: &mut S) -> (r: SearchResult<T>)
    ensures
        (final(searcher)@, r) == run::<T, S>(object_declaration_plan(*x), old(searcher)@),
{
    proof {
        reveal_with_fuel(run, 4);
    }
    match searcher.search_decl_pos(x.ident.pos()).or_not_found() {
        SearchResult::Found(v) => {
            return SearchResult::Found(v);
        },
        SearchResult::NotFound => {},
    }
    match search_subtype_indication(&x.subtype_indication, searcher) {
        SearchResult::Found(v) => {
            return SearchResult::Found(v);
        },
        SearchResult::NotFound => {},
    }
    if let Some(expr) = &x.expression {
        search_expression(expr, searcher)
    } else {
        SearchResult::NotFound
    }
}

pub fn search_element_declaration<T, S: Searcher<T>>(x: &ElementDeclaration, searcher: &mut S) -> (r: SearchResult<T>)
    ensures
        (final(searcher)@, r) == run::<T, S>(element_declaration_plan(*x), old(searcher)@),
{
    search_subtype_indication(&x.subtype, searcher)
}

pub fn search_element_declarations<T, S: Searcher<T>>(xs: &Vec<ElementDeclaration>, searcher: &mut S) -> (r: SearchResult<T>)
    ensures
        (final(searcher)@, r) == run::<T, S>(element_declarations_plan(xs@), old(searcher)@),
    decreases xs@,
{
    let mut i: usize = 0;
    proof {
        assert(xs@.skip(0) =~= xs@);
    }
    while i < xs.len()
        invariant
            i <= xs.len(),
            run::<T, S>(element_declarations_plan(xs@), old(searcher)@) == run::<T, S>(element_declarations_plan(xs@.skip(i as int)), searcher@),
        decreases xs.len() - i,
    {
        proof {
            assert(xs@.skip(i as int).drop_first() =~= xs@.skip(i + 1));
        }
        match search_element_declaration(&xs[i], searcher) {
            SearchResult::Found(x) => {
                return SearchResult::Found(x);
            },
            SearchResult::NotFound => {},
        }
        i = i + 1;
    }
    proof {
        assert(xs@.skip(i as int) =~= Seq::<ElementDeclaration>::empty());
    }
    SearchResult::NotFound
}
pub fn search_array_index<T, S: Searcher<T>>(x: &ArrayIndex, searcher: &mut S) -> (r: SearchResult<T>)
    ensures
        (final(searcher)@, r) == run::<T, S>(array_index_plan(*x), old(searcher)@),
{
    match x {
        ArrayIndex::IndexSubtypeDefintion(type_mark) => search_selected_name(type_mark, searcher),
        ArrayIndex::Discrete(drange) => search_discrete_range(drange, searcher),
    }
}

pub fn search_array_indexes<T, S: Searcher<T>>(xs: &Vec<ArrayIndex>, searcher: &mut S) -> (r: SearchResult<T>)
    ensures
        (final(searcher)@, r) == run::<T, S>(array_indexes_plan(xs@), old(searcher)@),
    decreases xs@,
{
    let mut i: usize = 0;
    proof {
        assert(xs@.skip(0) =~= xs@);
    }
    while i < xs.len()
        invariant
            i <= xs.len(),
            run::<T, S>(array_indexes_plan(xs@), old(searcher)@) == run::<T, S>(array_indexes_plan(xs@.skip(i as int)), searcher@),
        decreases xs.len() - i,
    {
        proof {
            assert(xs@.skip(i as int).drop_first() =~= xs@.skip(i + 1));
        }
        match search_array_index(&xs[i], searcher) {
            SearchResult::Found(x) => {
                return SearchResult::Found(x);
            },
            SearchResult::NotFound => {},
        }
        i = i + 1;
    }
    proof {
        assert(xs@.skip(i as int) =~= Seq::<ArrayIndex>::empty());
    }
    SearchResult::NotFound
}
pub fn search_type_declaration<T, S: Searcher<T>>(x: &TypeDeclaration, searcher: &mut S) -> (r: SearchResult<T>)
    ensures
        (final(searcher)@, r) == run::<T, S>(type_declaration_plan(*x), old(searcher)@),
    decreases x,
{
    proof {
        reveal_with_fuel(run, 4);
    }
    match searcher.search_decl_pos(x.ident.pos()).or_not_found() {
        SearchResult::Found(v) => {
            return SearchResult::Found(v);
        },
        SearchResult::NotFound => {},
    }
    match &x.def {
        TypeDefinition::ProtectedBody(body) => search_declarations(&body.decl, searcher),
        TypeDefinition::Protected(prot_decl) => search_protected_items(&prot_decl.items, searcher),
        TypeDefinition::Record(element_decls) => search_element_declarations(element_decls, searcher),
        TypeDefinition::Access(subtype_indication) => search_subtype_indication(subtype_indication, searcher),
        TypeDefinition::Array(indexes, subtype_indication) => {
            match search_array_indexes(indexes, searcher) {
                SearchResult::Found(v) => {
                    return SearchResult::Found(v);
                },
                SearchResult::NotFound => {},
            }
            search_subtype_indication(subtype_indication, searcher)
        },
        TypeDefinition::Subtype(subtype_indication) => search_subtype_indication(subtype_indication, searcher),
        _ => SearchResult::NotFound,
    }
}

pub fn search_protected_item<T, S: Searcher<T>>(x: &ProtectedTypeDeclarativeItem, searcher: &mut S) -> (r: SearchResult<T>)
    ensures
        (final(searcher)@, r) == run::<T, S>(protected_item_plan(*x), old(searcher)@),
    decreases x,
{
    match x {
        ProtectedTypeDeclarativeItem::Subprogram(subprogram) => search_subprogram_declaration(subprogram, searcher),
    }
}

pub fn search_protected_items<T, S: Searcher<T>>(xs: &Vec<ProtectedTypeDeclarativeItem>, searcher: &mut S) -> (r: SearchResult<T>)
    ensures
        (final(searcher)@, r) == run::<T, S>(protected_items_plan(xs@), old(searcher)@),
    decreases xs@,
{
    let mut i: usize = 0;
    proof {
        assert(xs@.skip(0) =~= xs@);
    }
    while i < xs.len()
        invariant
            i <= xs.len(),
            run::<T, S>(protected_items_plan(xs@), old(searcher)@) == run::<T, S>(protected_items_plan(xs@.skip(i as int)), searcher@),
        decreases xs.len() - i,
    {
        proof {
            assert(xs@.skip(i as int).drop_first() =~= xs@.skip(i + 1));
        }
        match search_protected_item(&xs[i], searcher) {
            SearchResult::Found(x) => {
                return SearchResult::Found(x);
            },
            SearchResult::NotFound => {},
        }
        i = i + 1;
    }
    proof {
        assert(xs@.skip(i as int) =~= Seq::<ProtectedTypeDeclarativeItem>::empty());
    }
    SearchResult::NotFound
}
pub fn search_declaration<T, S: Searcher<T>>(x: &Declaration, searcher: &mut S) -> (r: SearchResult<T>)
    ensures
        (final(searcher)@, r) == run::<T, S>(declaration_plan(*x), old(searcher)@),
    decreases x,
{
    proof {
        reveal_with_fuel(run, 4);
    }
    match searcher.search_declaration(x) {
        SearchState::Finished(result) => result,
        SearchState::NotFinished => match x {
            Declaration::Object(object) => search_object_declaration(object, searcher),
            Declaration::Type(typ) => search_type_declaration(typ, searcher),
            Declaration::SubprogramBody(body) => {
                match search_subprogram_declaration(&body.specification, searcher) {
                    SearchResult::Found(v) => {
                        return SearchResult::Found(v);
                    },
                    SearchResult::NotFound => {},
                }
                match search_declarations(&body.declarations, searcher) {
                    SearchResult::Found(v) => {
                        return SearchResult::Found(v);
                    },
                    SearchResult::NotFound => {},
                }
                search_sequential_statements(&body.statements, searcher)
            },
            Declaration::SubprogramDeclaration(decl) => search_subprogram_declaration(decl, searcher),
            Declaration::Attribute(Attribute::Declaration(decl)) => search_selected_name(&decl.type_mark, searcher),
            Declaration::Alias(decl) => match &decl.subtype_indication {
                Some(subtype_indication) => search_subtype_indication(subtype_indication, searcher),
                None => SearchResult::NotFound,
            },
            Declaration::Use(use_clause) => match searcher.search_with_pos(&use_clause.pos) {
                SearchState::Finished(result) => result,
                SearchState::NotFinished => search_names(&use_clause.item.name_list, searcher),
            },
            Declaration::Component(component) => {
                match searcher.search_decl_pos(component.ident.pos()).or_not_found() {
                    SearchResult::Found(v) => {
                        return SearchResult::Found(v);
                    },
                    SearchResult::NotFound => {},
                }
                match search_interface_declarations(&component.generic_list, searcher) {
                    SearchResult::Found(v) => {
                        return SearchResult::Found(v);
                    },
                    SearchResult::NotFound => {},
                }
                search_interface_declarations(&component.port_list, searcher)
            },
            _ => SearchResult::NotFound,
        },
    }
}

pub fn search_declarations<T, S: Searcher<T>>(xs: &Vec<Declaration>, searcher: &mut S) -> (r: SearchResult<T>)
    ensures
        (final(searcher)@, r) == run::<T, S>(declarations_plan(xs@), old(searcher)@),
    decreases xs@,
{
    let mut i: usize = 0;
    proof {
        assert(xs@.skip(0) =~= xs@);
    }
    while i < xs.len()
        invariant
            i <= xs.len(),
            run::<T, S>(declarations_plan(xs@), old(searcher)@) == run::<T, S>(declarations_plan(xs@.skip(i as int)), searcher@),
        decreases xs.len() - i,
    {
        proof {
            assert(xs@.skip(i as int).drop_first() =~= xs@.skip(i + 1));
        }
        match search_declaration(&xs[i], searcher) {
            SearchResult::Found(x) => {
                return SearchResult::Found(x);
            },
            SearchResult::NotFound => {},
        }
        i = i + 1;
    }
    proof {
        assert(xs@.skip(i as int) =~= Seq::<Declaration>::empty());
    }
    SearchResult::NotFound
}
pub fn search_interface_declaration<T, S: Searcher<T>>(x: &InterfaceDeclaration, searcher: &mut S) -> (r: SearchResult<T>)
    ensures
        (final(searcher)@, r) == run::<T, S>(interface_declaration_plan(*x), old(searcher)@),
    decreases x,
{
    proof {
        reveal_with_fuel(run, 4);
    }
    match searcher.search_interface_declaration(x) {
        SearchState::Finished(result) => result,
        SearchState::NotFinished => match x {
            InterfaceDeclaration::Object(decl) => {
                match searcher.search_decl_pos(decl.ident.pos()).or_not_found() {
                    SearchResult::Found(v) => {
                        return SearchResult::Found(v);
                    },
                    SearchResult::NotFound => {},
                }
                search_subtype_indication(&decl.subtype_indication, searcher)
            },
            InterfaceDeclaration::Subprogram(decl, _) => search_subprogram_declaration(decl, searcher),
            _ => SearchResult::NotFound,
        },
    }
}

pub fn search_interface_declarations<T, S: Searcher<T>>(xs: &Vec<InterfaceDeclaration>, searcher: &mut S) -> (r: SearchResult<T>)
    ensures
        (final(searcher)@, r) == run::<T, S>(interface_declarations_plan(xs@), old(searcher)@),
    decreases xs@,
{
    let mut i: usize = 0;
    proof {
        assert(xs@.skip(0) =~= xs@);
    }
    while i < xs.len()
        invariant
            i <= xs.len(),
            run::<T, S>(interface_declarations_plan(xs@), old(searcher)@) == run::<T, S>(interface_declarations_plan(xs@.skip(i as int)), searcher@),
        decreases xs.len() - i,
    {
        proof {
            assert(xs@.skip(i as int).drop_first() =~= xs@.skip(i + 1));
        }
        match search_interface_declaration(&xs[i], searcher) {
            SearchResult::Found(x) => {
                return SearchResult::Found(x);
            },
            SearchResult::NotFound => {},
        }
        i = i + 1;
    }
    proof {
        assert(xs@.skip(i as int) =~= Seq::<InterfaceDeclaration>::empty());
    }
    SearchResult::NotFound
}
pub fn search_optional_interface_list<T, S: Searcher<T>>(x: &Option<Vec<InterfaceDeclaration>>, searcher: &mut S) -> (r: SearchResult<T>)
    ensures
        (final(searcher)@, r) == run::<T, S>(optional_interface_list_plan(*x), old(searcher)@),
{
    match x {
        Some(list) => search_interface_declarations(list, searcher),
        None => SearchResult::NotFound,
    }
}

pub fn search_subprogram_declaration<T, S: Searcher<T>>(x: &SubprogramDeclaration, searcher: &mut S) -> (r: SearchResult<T>)
    ensures
        (final(searcher)@, r) == run::<T, S>(subprogram_declaration_plan(*x), old(searcher)@),
    decreases x,
{
    match x {
        SubprogramDeclaration::Function(decl) => search_function_specification(decl, searcher),
        SubprogramDeclaration::Procedure(decl) => search_procedure_specification(decl, searcher),
    }
}

pub fn search_procedure_specification<T, S: Searcher<T>>(x: &ProcedureSpecification, searcher: &mut S) -> (r: SearchResult<T>)
    ensures
        (final(searcher)@, r) == run::<T, S>(procedure_specification_plan(*x), old(searcher)@),
    decreases x,
{
    proof {
        reveal_with_fuel(run, 4);
    }
    match searcher.search_decl_pos(&x.designator.pos).or_not_found() {
        SearchResult::Found(v) => {
            return SearchResult::Found(v);
        },
        SearchResult::NotFound => {},
    }
    search_interface_declarations(&x.parameter_list, searcher)
}

pub fn search_function_specification<T, S: Searcher<T>>(x: &FunctionSpecification, searcher: &mut S) -> (r: SearchResult<T>)
    ensures
        (final(searcher)@, r) == run::<T, S>(function_specification_plan(*x), old(searcher)@),
    decreases x,
{
    proof {
        reveal_with_fuel(run, 4);
    }
    match searcher.search_decl_pos(&x.designator.pos).or_not_found() {
        SearchResult::Found(v) => {
            return SearchResult::Found(v);
        },
        SearchResult::NotFound => {},
    }
    match search_interface_declarations(&x.parameter_list, searcher) {
        SearchResult::Found(v) => {
            return SearchResult::Found(v);
        },
        SearchResult::NotFound => {},
    }
    search_selected_name(&x.return_type, searcher)
}

pub fn search_conditional_expression<T, S: Searcher<T>>(x: &Conditional<WithPos<Expression>>, searcher: &mut S) -> (r: SearchResult<T>)
    ensures
        (final(searcher)@, r) == run::<T, S>(conditional_expression_plan(*x), old(searcher)@),
{
    proof {
        reveal_with_fuel(run, 4);
    }
    match search_expression(&x.item, searcher) {
        SearchResult::Found(v) => {
            return SearchResult::Found(v);
        },
        SearchResult::NotFound => {},
    }
    search_expression(&x.condition, searcher)
}

pub fn search_conditional_expressions<T, S: Searcher<T>>(xs: &Vec<Conditional<WithPos<Expression>>>, searcher: &mut S) -> (r: SearchResult<T>)
    ensures
        (final(searcher)@, r) == run::<T, S>(conditional_expressions_plan(xs@), old(searcher)@),
    decreases xs@,
{
    let mut i: usize = 0;
    proof {
        assert(xs@.skip(0) =~= xs@);
    }
    while i < xs.len()
        invariant
            i <= xs.len(),
            run::<T, S>(conditional_expressions_plan(xs@), old(searcher)@) == run::<T, S>(conditional_expressions_plan(xs@.skip(i as int)), searcher@),
        decreases xs.len() - i,
    {
        proof {
            assert(xs@.skip(i as int).drop_first() =~= xs@.skip(i + 1));
        }
        match search_conditional_expression(&xs[i], searcher) {
            SearchResult::Found(x) => {
                return SearchResult::Found(x);
            },
            SearchResult::NotFound => {},
        }
        i = i + 1;
    }
    proof {
        assert(xs@.skip(i as int) =~= Seq::<Conditional<WithPos<Expression>>>::empty());
    }
    SearchResult::NotFound
}
pub fn search_sequential_statement<T, S: Searcher<T>>(x: &LabeledSequentialStatement, searcher: &mut S) -> (r: SearchResult<T>)
    ensures
        (final(searcher)@, r) == run::<T, S>(sequential_statement_plan(*x), old(searcher)@),
{
    proof {
        reveal_with_fuel(run, 4);
    }
    match search_label(&x.label, searcher) {
        SearchResult::Found(v) => {
            return SearchResult::Found(v);
        },
        SearchResult::NotFound => {},
    }
    match &x.statement {
        SequentialStatement::Return(ret) => match &ret.expression {
            Some(expr) => search_expression(expr, searcher),
            None => SearchResult::NotFound,
        },
        SequentialStatement::ProcedureCall(pcall) => search_function_call(pcall, searcher),
        SequentialStatement::VariableAssignment(assign) => {
            match &assign.target.item {
                Target::Name(name) => {
                    match search_pos_name(&assign.target.pos, name, searcher) {
                        SearchResult::Found(v) => {
                            return SearchResult::Found(v);
                        },
                        SearchResult::NotFound => {},
                    }
                },
                Target::Aggregate(_) => {},
            }
            match &assign.rhs {
                AssignmentRightHand::Simple(expr) => search_expression(expr, searcher),
                AssignmentRightHand::Conditional(conditionals) => {
                    match search_conditional_expressions(&conditionals.conditionals, searcher) {
                        SearchResult::Found(v) => {
                            return SearchResult::Found(v);
                        },
                        SearchResult::NotFound => {},
                    }
                    match &conditionals.else_item {
                        Some(expr) => search_expression(expr, searcher),
                        None => SearchResult::NotFound,
                    }
                },
                AssignmentRightHand::Selected(_) => SearchResult::NotFound,
            }
        },
        _ => SearchResult::NotFound,
    }
}

pub fn search_sequential_statements<T, S: Searcher<T>>(xs: &Vec<LabeledSequentialStatement>, searcher: &mut S) -> (r: SearchResult<T>)
    ensures
        (final(searcher)@, r) == run::<T, S>(sequential_statements_plan(xs@), old(searcher)@),
    decreases xs@,
{
    let mut i: usize = 0;
    proof {
        assert(xs@.skip(0) =~= xs@);
    }
    while i < xs.len()
        invariant
            i <= xs.len(),
            run::<T, S>(sequential_statements_plan(xs@), old(searcher)@) == run::<T, S>(sequential_statements_plan(xs@.skip(i as int)), searcher@),
        decreases xs.len() - i,
    {
        proof {
            assert(xs@.skip(i as int).drop_first() =~= xs@.skip(i + 1));
        }
        match search_sequential_statement(&xs[i], searcher) {
            SearchResult::Found(x) => {
                return SearchResult::Found(x);
            },
            SearchResult::NotFound => {},
        }
        i = i + 1;
    }
    proof {
        assert(xs@.skip(i as int) =~= Seq::<LabeledSequentialStatement>::empty());
    }
    SearchResult::NotFound
}
pub fn search_generate_body<T, S: Searcher<T>>(x: &GenerateBody, searcher: &mut S) -> (r: SearchResult<T>)
    ensures
        (final(searcher)@, r) == run::<T, S>(generate_body_plan(*x), old(searcher)@),
    decreases x,
{
    proof {
        reveal_with_fuel(run, 4);
    }
    match &x.decl {
        Some(decl) => {
            match search_declarations(decl, searcher) {
                SearchResult::Found(v) => {
                    return SearchResult::Found(v);
                },
                SearchResult::NotFound => {},
            }
        },
        None => {},
    }
    search_concurrent_statements(&x.statements, searcher)
}

pub fn search_generate_conditional<T, S: Searcher<T>>(x: &Conditional<GenerateBody>, searcher: &mut S) -> (r: SearchResult<T>)
    ensures
        (final(searcher)@, r) == run::<T, S>(generate_conditional_plan(*x), old(searcher)@),
    decreases x,
{
    search_generate_body(&x.item, searcher)
}

pub fn search_generate_conditionals<T, S: Searcher<T>>(xs: &Vec<Conditional<GenerateBody>>, searcher: &mut S) -> (r: SearchResult<T>)
    ensures
        (final(searcher)@, r) == run::<T, S>(generate_conditionals_plan(xs@), old(searcher)@),
    decreases xs@,
{
    let mut i: usize = 0;
    proof {
        assert(xs@.skip(0) =~= xs@);
    }
    while i < xs.len()
        invariant
            i <= xs.len(),
            run::<T, S>(generate_conditionals_plan(xs@), old(searcher)@) == run::<T, S>(generate_conditionals_plan(xs@.skip(i as int)), searcher@),
        decreases xs.len() - i,
    {
        proof {
            assert(xs@.skip(i as int).drop_first() =~= xs@.skip(i + 1));
        }
        match search_generate_conditional(&xs[i], searcher) {
            SearchResult::Found(x) => {
                return SearchResult::Found(x);
            },
            SearchResult::NotFound => {},
        }
        i = i + 1;
    }
    proof {
        assert(xs@.skip(i as int) =~= Seq::<Conditional<GenerateBody>>::empty());
    }
    SearchResult::NotFound
}
pub fn search_generate_alternative<T, S: Searcher<T>>(x: &Alternative<GenerateBody>, searcher: &mut S) -> (r: SearchResult<T>)
    ensures
        (final(searcher)@, r) == run::<T, S>(generate_alternative_plan(*x), old(searcher)@),
    decreases x,
{
    search_generate_body(&x.item, searcher)
}

pub fn search_generate_alternatives<T, S: Searcher<T>>(xs: &Vec<Alternative<GenerateBody>>, searcher: &mut S) -> (r: SearchResult<T>)
    ensures
        (final(searcher)@, r) == run::<T, S>(generate_alternatives_plan(xs@), old(searcher)@),
    decreases xs@,
{
    let mut i: usize = 0;
    proof {
        assert(xs@.skip(0) =~= xs@);
    }
    while i < xs.len()
        invariant
            i <= xs.len(),
            run::<T, S>(generate_alternatives_plan(xs@), old(searcher)@) == run::<T, S>(generate_alternatives_plan(xs@.skip(i as int)), searcher@),
        decreases xs.len() - i,
    {
        proof {
            assert(xs@.skip(i as int).drop_first() =~= xs@.skip(i + 1));
        }
        match search_generate_alternative(&xs[i], searcher) {
            SearchResult::Found(x) => {
                return SearchResult::Found(x);
            },
            SearchResult::NotFound => {},
        }
        i = i + 1;
    }
    proof {
        assert(xs@.skip(i as int) =~= Seq::<Alternative<GenerateBody>>::empty());
    }
    SearchResult::NotFound
}
pub fn search_instantiation<T, S: Searcher<T>>(x: &InstantiationStatement, searcher: &mut S) -> (r: SearchResult<T>)
    ensures
        (final(searcher)@, r) == run::<T, S>(instantiation_plan(*x), old(searcher)@),
{
    match &x.unit {
        InstantiatedUnit::Entity(ent_name, _) => search_selected_name(ent_name, searcher),
        _ => SearchResult::NotFound,
    }
}

pub fn search_concurrent_statement<T, S: Searcher<T>>(x: &LabeledConcurrentStatement, searcher: &mut S) -> (r: SearchResult<T>)
    ensures
        (final(searcher)@, r) == run::<T, S>(concurrent_statement_plan(*x), old(searcher)@),
    decreases x,
{
    proof {
        reveal_with_fuel(run, 4);
    }
    match search_label(&x.label, searcher) {
        SearchResult::Found(v) => {
            return SearchResult::Found(v);
        },
        SearchResult::NotFound => {},
    }
    match &x.statement {
        ConcurrentStatement::Block(block) => {
            match search_declarations(&block.decl, searcher) {
                SearchResult::Found(v) => {
                    return SearchResult::Found(v);
                },
                SearchResult::NotFound => {},
            }
            search_concurrent_statements(&block.statements, searcher)
        },
        ConcurrentStatement::Process(process) => {
            match search_declarations(&process.decl, searcher) {
                SearchResult::Found(v) => {
                    return SearchResult::Found(v);
                },
                SearchResult::NotFound => {},
            }
            search_sequential_statements(&process.statements, searcher)
        },
        ConcurrentStatement::ForGenerate(gen) => search_generate_body(&gen.body, searcher),
        ConcurrentStatement::IfGenerate(gen) => {
            match search_generate_conditionals(&gen.conditionals, searcher) {
                SearchResult::Found(v) => {
                    return SearchResult::Found(v);
                },
                SearchResult::NotFound => {},
            }
            match &gen.else_item {
                Some(body) => search_generate_body(body, searcher),
                None => SearchResult::NotFound,
            }
        },
        ConcurrentStatement::CaseGenerate(gen) => search_generate_alternatives(&gen.alternatives, searcher),
        ConcurrentStatement::Instance(inst) => search_instantiation(inst, searcher),
        ConcurrentStatement::ProcedureCall(_) => SearchResult::NotFound,
    }
}

pub fn search_concurrent_statements<T, S: Searcher<T>>(xs: &Vec<LabeledConcurrentStatement>, searcher: &mut S) -> (r: SearchResult<T>)
    ensures
        (final(searcher)@, r) == run::<T, S>(concurrent_statements_plan(xs@), old(searcher)@),
    decreases xs@,
{
    let mut i: usize = 0;
    proof {
        assert(xs@.skip(0) =~= xs@);
    }
    while i < xs.len()
        invariant
            i <= xs.len(),
            run::<T, S>(concurrent_statements_plan(xs@), old(searcher)@) == run::<T, S>(concurrent_statements_plan(xs@.skip(i as int)), searcher@),
        decreases xs.len() - i,
    {
        proof {
            assert(xs@.skip(i as int).drop_first() =~= xs@.skip(i + 1));
        }
        match search_concurrent_statement(&xs[i], searcher) {
            SearchResult::Found(x) => {
                return SearchResult::Found(x);
            },
            SearchResult::NotFound => {},
        }
        i = i + 1;
    }
    proof {
        assert(xs@.skip(i as int) =~= Seq::<LabeledConcurrentStatement>::empty());
    }
    SearchResult::NotFound
}

} // verus!
