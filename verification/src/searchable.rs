//! The parts of the syntax tree that can be searched on their own.

use vstd::prelude::*;
use crate::ast::{
    ArchitectureUnit, AttributeName, ConfigurationUnit, ContextDeclaration, ContextItem,
    Declaration, Designator, DiscreteRange, ElementConstraint, EntityUnit, Expression,
    FunctionCall, FunctionSpecification, GenerateBody, InstantiationStatement,
    InterfaceDeclaration, LabeledConcurrentStatement, LabeledSequentialStatement, LibraryClause,
    Name, ObjectDeclaration, PackageBodyUnit, PackageInstanceUnit, PackageUnit,
    ProcedureSpecification, QualifiedExpression, Range, RangeConstraint, SelectedName,
    SubprogramDeclaration, SubtypeConstraint, SubtypeIndication, TypeDeclaration,
};
use crate::search::{Plan, Search, SearchResult, Searcher};
use crate::source::{WithPos, WithRef};
use crate::walk_decl::{
    concurrent_statement_plan,
    declaration_plan,
    function_specification_plan,
    generate_body_plan,
    instantiation_plan,
    interface_declaration_plan,
    object_declaration_plan,
    procedure_specification_plan,
    search_concurrent_statement,
    search_declaration,
    search_function_specification,
    search_generate_body,
    search_instantiation,
    search_interface_declaration,
    search_object_declaration,
    search_procedure_specification,
    search_sequential_statement,
    search_subprogram_declaration,
    search_type_declaration,
    sequential_statement_plan,
    subprogram_declaration_plan,
    type_declaration_plan,
};
use crate::walk_expr::{
    attribute_name_plan,
    designator_plan,
    discrete_range_plan,
    element_constraint_plan,
    expression_plan,
    function_call_plan,
    name_plan,
    pos_element_constraint_plan,
    qualified_expression_plan,
    range_constraint_plan,
    range_plan,
    search_attribute_name,
    search_designator,
    search_discrete_range,
    search_element_constraint,
    search_expression,
    search_function_call,
    search_name,
    search_pos_element_constraint,
    search_qualified_expression,
    search_range,
    search_range_constraint,
    search_selected_name,
    search_subtype_constraint,
    search_subtype_indication,
    selected_name_plan,
    subtype_constraint_plan,
    subtype_indication_plan,
};
use crate::walk_unit::{
    architecture_unit_plan,
    configuration_unit_plan,
    context_declaration_plan,
    context_item_plan,
    entity_unit_plan,
    library_clause_plan,
    package_body_unit_plan,
    package_instance_unit_plan,
    package_unit_plan,
    search_architecture_unit,
    search_configuration_unit,
    search_context_declaration,
    search_context_item,
    search_entity_unit,
    search_library_clause,
    search_package_body_unit,
    search_package_instance_unit,
    search_package_unit,
};

verus! {

impl<T> Search<T> for LabeledSequentialStatement {
    open spec fn plan(&self) -> Plan {
        sequential_statement_plan(*self)
    }

    fn search<S: Searcher<T>>(&self, searcher: &mut S) -> (r: SearchResult<T>) {
        search_sequential_statement(self, searcher)
    }
}

impl<T> Search<T> for GenerateBody {
    open spec fn plan(&self) -> Plan {
        generate_body_plan(*self)
    }

    fn search<S: Searcher<T>>(&self, searcher: &mut S) -> (r: SearchResult<T>) {
        search_generate_body(self, searcher)
    }
}

impl<T> Search<T> for InstantiationStatement {
    open spec fn plan(&self) -> Plan {
        instantiation_plan(*self)
    }

    fn search<S: Searcher<T>>(&self, searcher: &mut S) -> (r: SearchResult<T>) {
        search_instantiation(self, searcher)
    }
}

impl<T> Search<T> for LabeledConcurrentStatement {
    open spec fn plan(&self) -> Plan {
        concurrent_statement_plan(*self)
    }

    fn search<S: Searcher<T>>(&self, searcher: &mut S) -> (r: SearchResult<T>) {
        search_concurrent_statement(self, searcher)
    }
}

impl<T> Search<T> for WithPos<WithRef<Designator>> {
    open spec fn plan(&self) -> Plan {
        designator_plan(*self)
    }

    fn search<S: Searcher<T>>(&self, searcher: &mut S) -> (r: SearchResult<T>) {
        search_designator(self, searcher)
    }
}

impl<T> Search<T> for WithPos<SelectedName> {
    open spec fn plan(&self) -> Plan {
        selected_name_plan(*self)
    }

    fn search<S: Searcher<T>>(&self, searcher: &mut S) -> (r: SearchResult<T>) {
        search_selected_name(self, searcher)
    }
}

impl<T> Search<T> for WithPos<Name> {
    open spec fn plan(&self) -> Plan {
        name_plan(*self)
    }

    fn search<S: Searcher<T>>(&self, searcher: &mut S) -> (r: SearchResult<T>) {
        search_name(self, searcher)
    }
}

impl<T> Search<T> for ElementConstraint {
    open spec fn plan(&self) -> Plan {
        element_constraint_plan(*self)
    }

    fn search<S: Searcher<T>>(&self, searcher: &mut S) -> (r: SearchResult<T>) {
        search_element_constraint(self, searcher)
    }
}

impl<T> Search<T> for WithPos<ElementConstraint> {
    open spec fn plan(&self) -> Plan {
        pos_element_constraint_plan(*self)
    }

    fn search<S: Searcher<T>>(&self, searcher: &mut S) -> (r: SearchResult<T>) {
        search_pos_element_constraint(self, searcher)
    }
}

impl<T> Search<T> for WithPos<SubtypeConstraint> {
    open spec fn plan(&self) -> Plan {
        subtype_constraint_plan(*self)
    }

    fn search<S: Searcher<T>>(&self, searcher: &mut S) -> (r: SearchResult<T>) {
        search_subtype_constraint(self, searcher)
    }
}

impl<T> Search<T> for SubtypeIndication {
    open spec fn plan(&self) -> Plan {
        subtype_indication_plan(*self)
    }

    fn search<S: Searcher<T>>(&self, searcher: &mut S) -> (r: SearchResult<T>) {
        search_subtype_indication(self, searcher)
    }
}

impl<T> Search<T> for RangeConstraint {
    open spec fn plan(&self) -> Plan {
        range_constraint_plan(*self)
    }

    fn search<S: Searcher<T>>(&self, searcher: &mut S) -> (r: SearchResult<T>) {
        search_range_constraint(self, searcher)
    }
}

impl<T> Search<T> for AttributeName {
    open spec fn plan(&self) -> Plan {
        attribute_name_plan(*self)
    }

    fn search<S: Searcher<T>>(&self, searcher: &mut S) -> (r: SearchResult<T>) {
        search_attribute_name(self, searcher)
    }
}

impl<T> Search<T> for Range {
    open spec fn plan(&self) -> Plan {
        range_plan(*self)
    }

    fn search<S: Searcher<T>>(&self, searcher: &mut S) -> (r: SearchResult<T>) {
        search_range(self, searcher)
    }
}

impl<T> Search<T> for DiscreteRange {
    open spec fn plan(&self) -> Plan {
        discrete_range_plan(*self)
    }

    fn search<S: Searcher<T>>(&self, searcher: &mut S) -> (r: SearchResult<T>) {
        search_discrete_range(self, searcher)
    }
}

impl<T> Search<T> for TypeDeclaration {
    open spec fn plan(&self) -> Plan {
        type_declaration_plan(*self)
    }

    fn search<S: Searcher<T>>(&self, searcher: &mut S) -> (r: SearchResult<T>) {
        search_type_declaration(self, searcher)
    }
}

impl<T> Search<T> for QualifiedExpression {
    open spec fn plan(&self) -> Plan {
        qualified_expression_plan(*self)
    }

    fn search<S: Searcher<T>>(&self, searcher: &mut S) -> (r: SearchResult<T>) {
        search_qualified_expression(self, searcher)
    }
}

impl<T> Search<T> for FunctionCall {
    open spec fn plan(&self) -> Plan {
        function_call_plan(*self)
    }

    fn search<S: Searcher<T>>(&self, searcher: &mut S) -> (r: SearchResult<T>) {
        search_function_call(self, searcher)
    }
}

impl<T> Search<T> for WithPos<Expression> {
    open spec fn plan(&self) -> Plan {
        expression_plan(*self)
    }

    fn search<S: Searcher<T>>(&self, searcher: &mut S) -> (r: SearchResult<T>) {
        search_expression(self, searcher)
    }
}

impl<T> Search<T> for ObjectDeclaration {
    open spec fn plan(&self) -> Plan {
        object_declaration_plan(*self)
    }

    fn search<S: Searcher<T>>(&self, searcher: &mut S) -> (r: SearchResult<T>) {
        search_object_declaration(self, searcher)
    }
}

impl<T> Search<T> for Declaration {
    open spec fn plan(&self) -> Plan {
        declaration_plan(*self)
    }

    fn search<S: Searcher<T>>(&self, searcher: &mut S) -> (r: SearchResult<T>) {
        search_declaration(self, searcher)
    }
}

impl<T> Search<T> for InterfaceDeclaration {
    open spec fn plan(&self) -> Plan {
        interface_declaration_plan(*self)
    }

    fn search<S: Searcher<T>>(&self, searcher: &mut S) -> (r: SearchResult<T>) {
        search_interface_declaration(self, searcher)
    }
}

impl<T> Search<T> for SubprogramDeclaration {
    open spec fn plan(&self) -> Plan {
        subprogram_declaration_plan(*self)
    }

    fn search<S: Searcher<T>>(&self, searcher: &mut S) -> (r: SearchResult<T>) {
        search_subprogram_declaration(self, searcher)
    }
}

impl<T> Search<T> for ProcedureSpecification {
    open spec fn plan(&self) -> Plan {
        procedure_specification_plan(*self)
    }

    fn search<S: Searcher<T>>(&self, searcher: &mut S) -> (r: SearchResult<T>) {
        search_procedure_specification(self, searcher)
    }
}

impl<T> Search<T> for FunctionSpecification {
    open spec fn plan(&self) -> Plan {
        function_specification_plan(*self)
    }

    fn search<S: Searcher<T>>(&self, searcher: &mut S) -> (r: SearchResult<T>) {
        search_function_specification(self, searcher)
    }
}

impl<T> Search<T> for LibraryClause {
    open spec fn plan(&self) -> Plan {
        library_clause_plan(*self)
    }

    fn search<S: Searcher<T>>(&self, searcher: &mut S) -> (r: SearchResult<T>) {
        search_library_clause(self, searcher)
    }
}

impl<T> Search<T> for WithPos<ContextItem> {
    open spec fn plan(&self) -> Plan {
        context_item_plan(*self)
    }

    fn search<S: Searcher<T>>(&self, searcher: &mut S) -> (r: SearchResult<T>) {
        search_context_item(self, searcher)
    }
}

impl<T> Search<T> for EntityUnit {
    open spec fn plan(&self) -> Plan {
        entity_unit_plan(*self)
    }

    fn search<S: Searcher<T>>(&self, searcher: &mut S) -> (r: SearchResult<T>) {
        search_entity_unit(self, searcher)
    }
}

impl<T> Search<T> for ArchitectureUnit {
    open spec fn plan(&self) -> Plan {
        architecture_unit_plan(*self)
    }

    fn search<S: Searcher<T>>(&self, searcher: &mut S) -> (r: SearchResult<T>) {
        search_architecture_unit(self, searcher)
    }
}

impl<T> Search<T> for PackageUnit {
    open spec fn plan(&self) -> Plan {
        package_unit_plan(*self)
    }

    fn search<S: Searcher<T>>(&self, searcher: &mut S) -> (r: SearchResult<T>) {
        search_package_unit(self, searcher)
    }
}

impl<T> Search<T> for PackageBodyUnit {
    open spec fn plan(&self) -> Plan {
        package_body_unit_plan(*self)
    }

    fn search<S: Searcher<T>>(&self, searcher: &mut S) -> (r: SearchResult<T>) {
        search_package_body_unit(self, searcher)
    }
}

impl<T> Search<T> for PackageInstanceUnit {
    open spec fn plan(&self) -> Plan {
        package_instance_unit_plan(*self)
    }

    fn search<S: Searcher<T>>(&self, searcher: &mut S) -> (r: SearchResult<T>) {
        search_package_instance_unit(self, searcher)
    }
}

impl<T> Search<T> for ConfigurationUnit {
    open spec fn plan(&self) -> Plan {
        configuration_unit_plan(*self)
    }

    fn search<S: Searcher<T>>(&self, searcher: &mut S) -> (r: SearchResult<T>) {
        search_configuration_unit(self, searcher)
    }
}

impl<T> Search<T> for ContextDeclaration {
    open spec fn plan(&self) -> Plan {
        context_declaration_plan(*self)
    }

    fn search<S: Searcher<T>>(&self, searcher: &mut S) -> (r: SearchResult<T>) {
        search_context_declaration(self, searcher)
    }
}

} // verus!
