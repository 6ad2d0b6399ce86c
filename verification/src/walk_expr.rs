//! Searching names, expressions, ranges and subtype indications.

use vstd::prelude::*;
use crate::ast::{
    ActualPart, Allocator, AssociationElement, AttributeName, Choice, Designator, DiscreteRange,
    ElementAssociation, ElementConstraint, Expression, FunctionCall, Name, QualifiedExpression,
    Range, RangeConstraint, SelectedName, SubtypeConstraint, SubtypeIndication,
};
use crate::search::{followed_by, guard, run, Hook, Plan, SearchResult, SearchState, Searcher};
use crate::source::{SrcPos, WithPos, WithRef};

verus! {

/// A designator with a reference: asked about its position; when the search
/// may go on, asked about the reference made there.
pub open spec fn designator_plan(x: WithPos<WithRef<Designator>>) -> Plan {
    guard(Hook::WithPos(x.pos), Plan::Ask(Hook::DesignatorRef(x.pos, x.item)))
}

/// A selected name: asked about its position; when the search may go on, the
/// prefix and then the suffix are searched, or the reference made by a
/// simple designator is asked about.
pub open spec fn selected_name_plan(x: WithPos<SelectedName>) -> Plan
    decreases x,
{
    guard(
        Hook::WithPos(x.pos),
        match x.item {
            SelectedName::Selected(prefix, designator) => followed_by(
                selected_name_plan(*prefix),
                designator_plan(designator),
            ),
            SelectedName::Designator(d) => Plan::Ask(Hook::DesignatorRef(x.pos, d)),
        },
    )
}

/// A name: asked about its position (a finished answer that found nothing
/// does not stop the search), then searched by its kind.
pub open spec fn name_plan(x: WithPos<Name>) -> Plan
    decreases x,
{
    followed_by(Plan::Ask(Hook::WithPos(x.pos)), pos_name_plan(x.pos, x.item))
}

/// A name written at `pos`, searched by its kind.
pub open spec fn pos_name_plan(pos: SrcPos, name: Name) -> Plan
    decreases name,
{
    match name {
        Name::Selected(prefix, designator) => followed_by(name_plan(*prefix), designator_plan(designator)),
        Name::SelectedAll(prefix) => name_plan(*prefix),
        Name::Designator(d) => Plan::Ask(Hook::DesignatorRef(pos, d)),
        Name::Indexed(prefix, _) => name_plan(*prefix),
        Name::Slice(prefix, drange) => followed_by(name_plan(*prefix), discrete_range_plan(*drange)),
        Name::FunctionCall(fcall) => function_call_plan(*fcall),
        Name::Attribute(attr) => followed_by(
            name_plan(attr.name),
            match attr.expr {
                Some(e) => expression_plan(*e),
                None => Plan::Nil,
            },
        ),
        Name::External(_) => Plan::Nil,
    }
}

pub open spec fn expression_plan(x: WithPos<Expression>) -> Plan
    decreases x,
{
    pos_expr_plan(x.pos, x.item)
}

/// An expression written at `pos`: asked about its position (a finished
/// answer that found nothing does not stop the search), then searched by its
/// kind.
pub open spec fn pos_expr_plan(pos: SrcPos, expr: Expression) -> Plan
    decreases expr,
{
    followed_by(
        Plan::Ask(Hook::WithPos(pos)),
        match expr {
            Expression::Binary(_, left, right) => followed_by(expression_plan(*left), expression_plan(*right)),
            Expression::Unary(_, e) => expression_plan(*e),
            Expression::Name(name) => pos_name_plan(pos, *name),
            Expression::Aggregate(assocs) => element_associations_plan(assocs@),
            Expression::Qualified(qexpr) => qualified_expression_plan(*qexpr),
            Expression::New(alloc) => followed_by(
                Plan::Ask(Hook::WithPos(alloc.pos)),
                match alloc.item {
                    Allocator::Qualified(qexpr) => qualified_expression_plan(qexpr),
                    Allocator::Subtype(subtype) => subtype_indication_plan(subtype),
                },
            ),
            Expression::Literal(_) => Plan::Nil,
        },
    )
}

/// A choice: only a discrete range is searched.
pub open spec fn choice_plan(x: Choice) -> Plan
    decreases x,
{
    match x {
        Choice::DiscreteRange(drange) => discrete_range_plan(drange),
        Choice::Expression(_) => Plan::Nil,
        Choice::Others => Plan::Nil,
    }
}

/// The choices, one after the other.
pub open spec fn choices_plan(xs: Seq<Choice>) -> Plan
    decreases xs,
{
    if xs.len() == 0 {
        Plan::Nil
    } else {
        followed_by(choice_plan(xs[0]), choices_plan(xs.drop_first()))
    }
}

/// An element association: the choices of a named one, then its expression.
pub open spec fn element_association_plan(x: ElementAssociation) -> Plan
    decreases x,
{
    match x {
        ElementAssociation::Named(choices, expr) => followed_by(choices_plan(choices@), expression_plan(expr)),
        ElementAssociation::Positional(expr) => expression_plan(expr),
    }
}

/// The element associations of an aggregate, one after the other.
pub open spec fn element_associations_plan(xs: Seq<ElementAssociation>) -> Plan
    decreases xs,
{
    if xs.len() == 0 {
        Plan::Nil
    } else {
        followed_by(element_association_plan(xs[0]), element_associations_plan(xs.drop_first()))
    }
}

/// A qualified expression: the type mark, then the expression.
pub open spec fn qualified_expression_plan(x: QualifiedExpression) -> Plan
    decreases x,
{
    followed_by(selected_name_plan(x.name), expression_plan(x.expr))
}

/// An association element: only the actual part, when it is an expression.
pub open spec fn association_element_plan(x: AssociationElement) -> Plan
    decreases x,
{
    match x.actual.item {
        ActualPart::Expression(expr) => pos_expr_plan(x.actual.pos, expr),
        ActualPart::Open => Plan::Nil,
    }
}

/// The association elements, one after the other.
pub open spec fn association_elements_plan(xs: Seq<AssociationElement>) -> Plan
    decreases xs,
{
    if xs.len() == 0 {
        Plan::Nil
    } else {
        followed_by(association_element_plan(xs[0]), association_elements_plan(xs.drop_first()))
    }
}

/// A function call: the name, then the actual parameters.
pub open spec fn function_call_plan(x: FunctionCall) -> Plan
    decreases x,
{
    followed_by(name_plan(x.name), association_elements_plan(x.parameters@))
}

/// A subtype indication: the type mark, then the constraint.
pub open spec fn subtype_indication_plan(x: SubtypeIndication) -> Plan
    decreases x,
{
    followed_by(
        selected_name_plan(x.type_mark),
        match x.constraint {
            Some(constraint) => subtype_constraint_plan(constraint),
            None => Plan::Nil,
        },
    )
}

/// A subtype constraint: asked about its position (a finished answer that
/// found nothing does not stop the search), then searched by its kind.
pub open spec fn subtype_constraint_plan(x: WithPos<SubtypeConstraint>) -> Plan
    decreases x,
{
    followed_by(
        Plan::Ask(Hook::WithPos(x.pos)),
        match x.item {
            SubtypeConstraint::Array(dranges, constraint) => followed_by(
                discrete_ranges_plan(dranges@),
                match constraint {
                    Some(c) => subtype_constraint_plan(*c),
                    None => Plan::Nil,
                },
            ),
            SubtypeConstraint::Range(range) => range_plan(range),
            SubtypeConstraint::Record(constraints) => element_constraints_plan(constraints@),
        },
    )
}

/// An element constraint: its constraint.
pub open spec fn element_constraint_plan(x: ElementConstraint) -> Plan
    decreases x,
{
    subtype_constraint_plan(*x.constraint)
}

/// An element constraint with a position: asked about the position (a
/// finished answer that found nothing does not stop the search), then the
/// constraint.
pub open spec fn pos_element_constraint_plan(x: WithPos<ElementConstraint>) -> Plan {
    followed_by(Plan::Ask(Hook::WithPos(x.pos)), element_constraint_plan(x.item))
}

/// The element constraints of a record constraint, one after the other.
pub open spec fn element_constraints_plan(xs: Seq<ElementConstraint>) -> Plan
    decreases xs,
{
    if xs.len() == 0 {
        Plan::Nil
    } else {
        followed_by(element_constraint_plan(xs[0]), element_constraints_plan(xs.drop_first()))
    }
}
/// The discrete ranges, one after the other.
pub open spec fn discrete_ranges_plan(xs: Seq<DiscreteRange>) -> Plan
    decreases xs,
{
    if xs.len() == 0 {
        Plan::Nil
    } else {
        followed_by(discrete_range_plan(xs[0]), discrete_ranges_plan(xs.drop_first()))
    }
}

/// A range constraint: the left bound, then the right bound.
pub open spec fn range_constraint_plan(x: RangeConstraint) -> Plan
    decreases x,
{
    followed_by(expression_plan(*x.left_expr), expression_plan(*x.right_expr))
}

/// An attribute name: only the prefix name.
pub open spec fn attribute_name_plan(x: AttributeName) -> Plan
    decreases x,
{
    name_plan(x.name)
}

pub open spec fn range_plan(x: Range) -> Plan
    decreases x,
{
    match x {
        Range::Range(constraint) => range_constraint_plan(constraint),
        Range::Attribute(attr) => attribute_name_plan(*attr),
    }
}

/// A discrete range: the type mark and its range, or the range.
pub open spec fn discrete_range_plan(x: DiscreteRange) -> Plan
    decreases x,
{
    match x {
        DiscreteRange::Discrete(type_mark, constraint) => followed_by(
            selected_name_plan(type_mark),
            match constraint {
                Some(range) => range_plan(range),
                None => Plan::Nil,
            },
        ),
        DiscreteRange::Range(constraint) => range_plan(constraint),
    }
}

/// The names of a list, one after the other.
pub open spec fn names_plan(xs: Seq<WithPos<Name>>) -> Plan
    decreases xs,
{
    if xs.len() == 0 {
        Plan::Nil
    } else {
        followed_by(name_plan(xs[0]), names_plan(xs.drop_first()))
    }
}

// The searches. Each one is proved to do what its plan says.

pub fn search_designator<T, S: Searcher<T>>(x: &WithPos<WithRef<Designator>>, searcher: &mut S) -> (r: SearchResult<T>)
    ensures
        (final(searcher)@, r) == run::<T, S>(designator_plan(*x), old(searcher)@),
{
    proof {
        reveal_with_fuel(run, 3);
    }
    match searcher.search_with_pos(&x.pos) {
        SearchState::Finished(result) => result,
        SearchState::NotFinished => searcher.search_designator_ref(&x.pos, &x.item).or_not_found(),
    }
}

pub fn search_selected_name<T, S: Searcher<T>>(x: &WithPos<SelectedName>, searcher: &mut S) -> (r: SearchResult<T>)
    ensures
        (final(searcher)@, r) == run::<T, S>(selected_name_plan(*x), old(searcher)@),
    decreases x,
{
    proof {
        reveal_with_fuel(run, 3);
    }
    match searcher.search_with_pos(&x.pos) {
        SearchState::Finished(result) => result,
        SearchState::NotFinished => match &x.item {
            SelectedName::Selected(prefix, designator) => {
                match search_selected_name(prefix, searcher) {
                    SearchResult::Found(v) => {
                        return SearchResult::Found(v);
                    },
                    SearchResult::NotFound => {},
                }
                search_designator(designator, searcher)
            },
            SelectedName::Designator(designator) => searcher.search_designator_ref(
                &x.pos,
                designator,
            ).or_not_found(),
        },
    }
}

pub fn search_name<T, S: Searcher<T>>(x: &WithPos<Name>, searcher: &mut S) -> (r: SearchResult<T>)
    ensures
        (final(searcher)@, r) == run::<T, S>(name_plan(*x), old(searcher)@),
    decreases x,
{
    proof {
        reveal_with_fuel(run, 3);
    }
    match searcher.search_with_pos(&x.pos).or_not_found() {
        SearchResult::Found(v) => {
            return SearchResult::Found(v);
        },
        SearchResult::NotFound => {},
    }
    search_pos_name(&x.pos, &x.item, searcher)
}

pub fn search_pos_name<T, S: Searcher<T>>(pos: &SrcPos, name: &Name, searcher: &mut S) -> (r: SearchResult<T>)
    ensures
        (final(searcher)@, r) == run::<T, S>(pos_name_plan(*pos, *name), old(searcher)@),
    decreases name,
{
    proof {
        reveal_with_fuel(run, 3);
    }
    match name {
        Name::Selected(prefix, designator) => {
            match search_name(prefix, searcher) {
                SearchResult::Found(v) => {
                    return SearchResult::Found(v);
                },
                SearchResult::NotFound => {},
            }
            search_designator(designator, searcher)
        },
        Name::SelectedAll(prefix) => search_name(prefix, searcher),
        Name::Designator(designator) => searcher.search_designator_ref(pos, designator).or_not_found(),
        Name::Indexed(prefix, _) => search_name(prefix, searcher),
        Name::Slice(prefix, drange) => {
            match search_name(prefix, searcher) {
                SearchResult::Found(v) => {
                    return SearchResult::Found(v);
                },
                SearchResult::NotFound => {},
            }
            search_discrete_range(drange, searcher)
        },
        Name::FunctionCall(fcall) => search_function_call(fcall, searcher),
        Name::Attribute(attr) => {
            match search_name(&attr.name, searcher) {
                SearchResult::Found(v) => {
                    return SearchResult::Found(v);
                },
                SearchResult::NotFound => {},
            }
            match &attr.expr {
                Some(expr) => search_expression(expr, searcher),
                None => SearchResult::NotFound,
            }
        },
        Name::External(_) => SearchResult::NotFound,
    }
}

pub fn search_expression<T, S: Searcher<T>>(x: &WithPos<Expression>, searcher: &mut S) -> (r: SearchResult<T>)
    ensures
        (final(searcher)@, r) == run::<T, S>(expression_plan(*x), old(searcher)@),
    decreases x,
{
    proof {
        reveal_with_fuel(run, 3);
    }
    search_pos_expr(&x.pos, &x.item, searcher)
}

pub fn search_pos_expr<T, S: Searcher<T>>(pos: &SrcPos, expr: &Expression, searcher: &mut S) -> (r: SearchResult<T>)
    ensures
        (final(searcher)@, r) == run::<T, S>(pos_expr_plan(*pos, *expr), old(searcher)@),
    decreases expr,
{
    proof {
        reveal_with_fuel(run, 3);
    }
    match searcher.search_with_pos(pos).or_not_found() {
        SearchResult::Found(v) => {
            return SearchResult::Found(v);
        },
        SearchResult::NotFound => {},
    }
    match expr {
        Expression::Binary(_, left, right) => {
            match search_expression(left, searcher) {
                SearchResult::Found(v) => {
                    return SearchResult::Found(v);
                },
                SearchResult::NotFound => {},
            }
            search_expression(right, searcher)
        },
        Expression::Unary(_, e) => search_expression(e, searcher),
        Expression::Name(name) => search_pos_name(pos, name, searcher),
        Expression::Aggregate(assocs) => search_element_associations(assocs, searcher),
        Expression::Qualified(qexpr) => search_qualified_expression(qexpr, searcher),
        Expression::New(alloc) => {
            match searcher.search_with_pos(&alloc.pos).or_not_found() {
                SearchResult::Found(v) => {
                    return SearchResult::Found(v);
                },
                SearchResult::NotFound => {},
            }
            match &alloc.item {
                Allocator::Qualified(qexpr) => search_qualified_expression(qexpr, searcher),
                Allocator::Subtype(subtype) => search_subtype_indication(subtype, searcher),
            }
        },
        Expression::Literal(_) => SearchResult::NotFound,
    }
}

pub fn search_choice<T, S: Searcher<T>>(x: &Choice, searcher: &mut S) -> (r: SearchResult<T>)
    ensures
        (final(searcher)@, r) == run::<T, S>(choice_plan(*x), old(searcher)@),
    decreases x,
{
    proof {
        reveal_with_fuel(run, 3);
    }
    match x {
        Choice::DiscreteRange(drange) => search_discrete_range(drange, searcher),
        Choice::Expression(_) => SearchResult::NotFound,
        Choice::Others => SearchResult::NotFound,
    }
}

pub fn search_choices<T, S: Searcher<T>>(xs: &Vec<Choice>, searcher: &mut S) -> (r: SearchResult<T>)
    ensures
        (final(searcher)@, r) == run::<T, S>(choices_plan(xs@), old(searcher)@),
    decreases xs@,
{
    let mut i: usize = 0;
    proof {
        assert(xs@.skip(0) =~= xs@);
    }
    while i < xs.len()
        invariant
            i <= xs.len(),
            run::<T, S>(choices_plan(xs@), old(searcher)@) == run::<T, S>(choices_plan(xs@.skip(i as int)), searcher@),
        decreases xs.len() - i,
    {
        proof {
            assert(xs@.skip(i as int).drop_first() =~= xs@.skip(i + 1));
        }
        match search_choice(&xs[i], searcher) {
            SearchResult::Found(x) => {
                return SearchResult::Found(x);
            },
            SearchResult::NotFound => {},
        }
        i = i + 1;
    }
    proof {
        assert(xs@.skip(i as int) =~= Seq::<Choice>::empty());
    }
    SearchResult::NotFound
}

pub fn search_element_association<T, S: Searcher<T>>(x: &ElementAssociation, searcher: &mut S) -> (r: SearchResult<T>)
    ensures
        (final(searcher)@, r) == run::<T, S>(element_association_plan(*x), old(searcher)@),
    decreases x,
{
    proof {
        reveal_with_fuel(run, 3);
    }
    match x {
        ElementAssociation::Named(choices, expr) => {
            match search_choices(choices, searcher) {
                SearchResult::Found(v) => {
                    return SearchResult::Found(v);
                },
                SearchResult::NotFound => {},
            }
            search_expression(expr, searcher)
        },
        ElementAssociation::Positional(expr) => search_expression(expr, searcher),
    }
}

pub fn search_element_associations<T, S: Searcher<T>>(xs: &Vec<ElementAssociation>, searcher: &mut S) -> (r: SearchResult<T>)
    ensures
        (final(searcher)@, r) == run::<T, S>(element_associations_plan(xs@), old(searcher)@),
    decreases xs@,
{
    let mut i: usize = 0;
    proof {
        assert(xs@.skip(0) =~= xs@);
    }
    while i < xs.len()
        invariant
            i <= xs.len(),
            run::<T, S>(element_associations_plan(xs@), old(searcher)@) == run::<T, S>(element_associations_plan(xs@.skip(i as int)), searcher@),
        decreases xs.len() - i,
    {
        proof {
            assert(xs@.skip(i as int).drop_first() =~= xs@.skip(i + 1));
        }
        match search_element_association(&xs[i], searcher) {
            SearchResult::Found(x) => {
                return SearchResult::Found(x);
            },
            SearchResult::NotFound => {},
        }
        i = i + 1;
    }
    proof {
        assert(xs@.skip(i as int) =~= Seq::<ElementAssociation>::empty());
    }
    SearchResult::NotFound
}

pub fn search_qualified_expression<T, S: Searcher<T>>(x: &QualifiedExpression, searcher: &mut S) -> (r: SearchResult<T>)
    ensures
        (final(searcher)@, r) == run::<T, S>(qualified_expression_plan(*x), old(searcher)@),
    decreases x,
{
    proof {
        reveal_with_fuel(run, 3);
    }
    match search_selected_name(&x.name, searcher) {
        SearchResult::Found(v) => {
            return SearchResult::Found(v);
        },
        SearchResult::NotFound => {},
    }
    search_expression(&x.expr, searcher)
}

pub fn search_association_element<T, S: Searcher<T>>(x: &AssociationElement, searcher: &mut S) -> (r: SearchResult<T>)
    ensures
        (final(searcher)@, r) == run::<T, S>(association_element_plan(*x), old(searcher)@),
    decreases x,
{
    proof {
        reveal_with_fuel(run, 3);
    }
    match &x.actual.item {
        ActualPart::Expression(expr) => search_pos_expr(&x.actual.pos, expr, searcher),
        ActualPart::Open => SearchResult::NotFound,
    }
}

pub fn search_association_elements<T, S: Searcher<T>>(xs: &Vec<AssociationElement>, searcher: &mut S) -> (r: SearchResult<T>)
    ensures
        (final(searcher)@, r) == run::<T, S>(association_elements_plan(xs@), old(searcher)@),
    decreases xs@,
{
    let mut i: usize = 0;
    proof {
        assert(xs@.skip(0) =~= xs@);
    }
    while i < xs.len()
        invariant
            i <= xs.len(),
            run::<T, S>(association_elements_plan(xs@), old(searcher)@) == run::<T, S>(association_elements_plan(xs@.skip(i as int)), searcher@),
        decreases xs.len() - i,
    {
        proof {
            assert(xs@.skip(i as int).drop_first() =~= xs@.skip(i + 1));
        }
        match search_association_element(&xs[i], searcher) {
            SearchResult::Found(x) => {
                return SearchResult::Found(x);
            },
            SearchResult::NotFound => {},
        }
        i = i + 1;
    }
    proof {
        assert(xs@.skip(i as int) =~= Seq::<AssociationElement>::empty());
    }
    SearchResult::NotFound
}

pub fn search_function_call<T, S: Searcher<T>>(x: &FunctionCall, searcher: &mut S) -> (r: SearchResult<T>)
    ensures
        (final(searcher)@, r) == run::<T, S>(function_call_plan(*x), old(searcher)@),
    decreases x,
{
    proof {
        reveal_with_fuel(run, 3);
    }
    match search_name(&x.name, searcher) {
        SearchResult::Found(v) => {
            return SearchResult::Found(v);
        },
        SearchResult::NotFound => {},
    }
    search_association_elements(&x.parameters, searcher)
}

pub fn search_subtype_indication<T, S: Searcher<T>>(x: &SubtypeIndication, searcher: &mut S) -> (r: SearchResult<T>)
    ensures
        (final(searcher)@, r) == run::<T, S>(subtype_indication_plan(*x), old(searcher)@),
    decreases x,
{
    proof {
        reveal_with_fuel(run, 3);
    }
    match search_selected_name(&x.type_mark, searcher) {
        SearchResult::Found(v) => {
            return SearchResult::Found(v);
        },
        SearchResult::NotFound => {},
    }
    match &x.constraint {
        Some(constraint) => search_subtype_constraint(constraint, searcher),
        None => SearchResult::NotFound,
    }
}

pub fn search_subtype_constraint<T, S: Searcher<T>>(x: &WithPos<SubtypeConstraint>, searcher: &mut S) -> (r: SearchResult<T>)
    ensures
        (final(searcher)@, r) == run::<T, S>(subtype_constraint_plan(*x), old(searcher)@),
    decreases x,
{
    proof {
        reveal_with_fuel(run, 3);
    }
    match searcher.search_with_pos(&x.pos).or_not_found() {
        SearchResult::Found(v) => {
            return SearchResult::Found(v);
        },
        SearchResult::NotFound => {},
    }
    match &x.item {
        SubtypeConstraint::Array(dranges, constraint) => {
            match search_discrete_ranges(dranges, searcher) {
                SearchResult::Found(v) => {
                    return SearchResult::Found(v);
                },
                SearchResult::NotFound => {},
            }
            match constraint {
                Some(c) => search_subtype_constraint(c, searcher),
                None => SearchResult::NotFound,
            }
        },
        SubtypeConstraint::Range(range) => search_range(range, searcher),
        SubtypeConstraint::Record(constraints) => search_element_constraints(constraints, searcher),
    }
}

pub fn search_element_constraint<T, S: Searcher<T>>(x: &ElementConstraint, searcher: &mut S) -> (r: SearchResult<T>)
    ensures
        (final(searcher)@, r) == run::<T, S>(element_constraint_plan(*x), old(searcher)@),
    decreases x,
{
    proof {
        reveal_with_fuel(run, 3);
    }
    search_subtype_constraint(&x.constraint, searcher)
}

pub fn search_pos_element_constraint<T, S: Searcher<T>>(x: &WithPos<ElementConstraint>, searcher: &mut S) -> (r: SearchResult<T>)
    ensures
        (final(searcher)@, r) == run::<T, S>(pos_element_constraint_plan(*x), old(searcher)@),
{
    proof {
        reveal_with_fuel(run, 3);
    }
    match searcher.search_with_pos(&x.pos).or_not_found() {
        SearchResult::Found(v) => {
            return SearchResult::Found(v);
        },
        SearchResult::NotFound => {},
    }
    search_element_constraint(&x.item, searcher)
}

pub fn search_element_constraints<T, S: Searcher<T>>(xs: &Vec<ElementConstraint>, searcher: &mut S) -> (r: SearchResult<T>)
    ensures
        (final(searcher)@, r) == run::<T, S>(element_constraints_plan(xs@), old(searcher)@),
    decreases xs@,
{
    let mut i: usize = 0;
    proof {
        assert(xs@.skip(0) =~= xs@);
    }
    while i < xs.len()
        invariant
            i <= xs.len(),
            run::<T, S>(element_constraints_plan(xs@), old(searcher)@) == run::<T, S>(element_constraints_plan(xs@.skip(i as int)), searcher@),
        decreases xs.len() - i,
    {
        proof {
            assert(xs@.skip(i as int).drop_first() =~= xs@.skip(i + 1));
        }
        match search_element_constraint(&xs[i], searcher) {
            SearchResult::Found(x) => {
                return SearchResult::Found(x);
            },
            SearchResult::NotFound => {},
        }
        i = i + 1;
    }
    proof {
        assert(xs@.skip(i as int) =~= Seq::<ElementConstraint>::empty());
    }
    SearchResult::NotFound
}
pub fn search_discrete_ranges<T, S: Searcher<T>>(xs: &Vec<DiscreteRange>, searcher: &mut S) -> (r: SearchResult<T>)
    ensures
        (final(searcher)@, r) == run::<T, S>(discrete_ranges_plan(xs@), old(searcher)@),
    decreases xs@,
{
    let mut i: usize = 0;
    proof {
        assert(xs@.skip(0) =~= xs@);
    }
    while i < xs.len()
        invariant
            i <= xs.len(),
            run::<T, S>(discrete_ranges_plan(xs@), old(searcher)@) == run::<T, S>(discrete_ranges_plan(xs@.skip(i as int)), searcher@),
        decreases xs.len() - i,
    {
        proof {
            assert(xs@.skip(i as int).drop_first() =~= xs@.skip(i + 1));
        }
        match search_discrete_range(&xs[i], searcher) {
            SearchResult::Found(x) => {
                return SearchResult::Found(x);
            },
            SearchResult::NotFound => {},
        }
        i = i + 1;
    }
    proof {
        assert(xs@.skip(i as int) =~= Seq::<DiscreteRange>::empty());
    }
    SearchResult::NotFound
}

pub fn search_range_constraint<T, S: Searcher<T>>(x: &RangeConstraint, searcher: &mut S) -> (r: SearchResult<T>)
    ensures
        (final(searcher)@, r) == run::<T, S>(range_constraint_plan(*x), old(searcher)@),
    decreases x,
{
    proof {
        reveal_with_fuel(run, 3);
    }
    match search_expression(&x.left_expr, searcher) {
        SearchResult::Found(v) => {
            return SearchResult::Found(v);
        },
        SearchResult::NotFound => {},
    }
    search_expression(&x.right_expr, searcher)
}

pub fn search_attribute_name<T, S: Searcher<T>>(x: &AttributeName, searcher: &mut S) -> (r: SearchResult<T>)
    ensures
        (final(searcher)@, r) == run::<T, S>(attribute_name_plan(*x), old(searcher)@),
    decreases x,
{
    proof {
        reveal_with_fuel(run, 3);
    }
    search_name(&x.name, searcher)
}

pub fn search_range<T, S: Searcher<T>>(x: &Range, searcher: &mut S) -> (r: SearchResult<T>)
    ensures
        (final(searcher)@, r) == run::<T, S>(range_plan(*x), old(searcher)@),
    decreases x,
{
    proof {
        reveal_with_fuel(run, 3);
    }
    match x {
        Range::Range(constraint) => search_range_constraint(constraint, searcher),
        Range::Attribute(attr) => search_attribute_name(attr, searcher),
    }
}

pub fn search_discrete_range<T, S: Searcher<T>>(x: &DiscreteRange, searcher: &mut S) -> (r: SearchResult<T>)
    ensures
        (final(searcher)@, r) == run::<T, S>(discrete_range_plan(*x), old(searcher)@),
    decreases x,
{
    proof {
        reveal_with_fuel(run, 3);
    }
    match x {
        DiscreteRange::Discrete(type_mark, constraint) => {
            match search_selected_name(type_mark, searcher) {
                SearchResult::Found(v) => {
                    return SearchResult::Found(v);
                },
                SearchResult::NotFound => {},
            }
            match constraint {
                Some(range) => search_range(range, searcher),
                None => SearchResult::NotFound,
            }
        },
        DiscreteRange::Range(constraint) => search_range(constraint, searcher),
    }
}

pub fn search_names<T, S: Searcher<T>>(xs: &Vec<WithPos<Name>>, searcher: &mut S) -> (r: SearchResult<T>)
    ensures
        (final(searcher)@, r) == run::<T, S>(names_plan(xs@), old(searcher)@),
    decreases xs@,
{
    let mut i: usize = 0;
    proof {
        assert(xs@.skip(0) =~= xs@);
    }
    while i < xs.len()
        invariant
            i <= xs.len(),
            run::<T, S>(names_plan(xs@), old(searcher)@) == run::<T, S>(names_plan(xs@.skip(i as int)), searcher@),
        decreases xs.len() - i,
    {
        proof {
            assert(xs@.skip(i as int).drop_first() =~= xs@.skip(i + 1));
        }
        match search_name(&xs[i], searcher) {
            SearchResult::Found(x) => {
                return SearchResult::Found(x);
            },
            SearchResult::NotFound => {},
        }
        i = i + 1;
    }
    proof {
        assert(xs@.skip(i as int) =~= Seq::<WithPos<Name>>::empty());
    }
    SearchResult::NotFound
}

} // verus!
