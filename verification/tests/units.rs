use vhdl_parser::ast::{
    Alternative, BlockStatement, Choice, ConcurrentStatement, ConfigurationDeclaration,
    ConfigurationUnit, Conditional, Conditionals, ContextDeclaration, ContextItem,
    Declaration, DesignUnit, Designator, DiscreteRange, EntityDeclaration, EntityUnit,
    Expression, ForGenerateStatement, FunctionCall, GenerateBody, InstantiatedUnit,
    InstantiationStatement, InterfaceDeclaration, InterfaceObjectDeclaration,
    LabeledConcurrentStatement, LibraryClause, Mode, Name, ObjectClass, ObjectDeclaration,
    PackageBody, PackageBodyUnit, PackageInstanceUnit, PackageInstantiation, Range,
    RangeConstraint, ResolutionIndication, SelectedName, Selection, SubtypeIndication, UseClause,
    Direction, Literal,
};
use vhdl_parser::cursor::ItemAtCursor;
use vhdl_parser::references::FindAllReferences;
use vhdl_parser::search::Search;
use vhdl_parser::source::{Ident, Position, Source, SrcPos, Symbol, WithPos, WithRef};

fn d() -> SrcPos {
    SrcPos::new(Source::new(4), Position::new(0, 0), Position::new(0, 3))
}

fn r(k: u64) -> SrcPos {
    SrcPos::new(Source::new(4), Position::new(k, 0), Position::new(k, 3))
}

fn other(k: u64) -> SrcPos {
    SrcPos::new(Source::new(4), Position::new(500 + k, 0), Position::new(500 + k, 3))
}

fn ident(p: SrcPos) -> Ident {
    WithPos::new(Symbol { id: 7 }, p)
}

fn des(reference: Option<SrcPos>) -> WithRef<Designator> {
    WithRef::new(Designator::Identifier(Symbol { id: 8 }), reference)
}

fn tm(k: u64) -> WithPos<SelectedName> {
    WithPos::new(SelectedName::Designator(des(Some(d()))), r(k))
}

fn expr_ref(k: u64) -> WithPos<Expression> {
    WithPos::new(Expression::Name(Box::new(Name::Designator(des(Some(d()))))), r(k))
}

fn subtype_ref(k: u64) -> SubtypeIndication {
    SubtypeIndication { resolution: ResolutionIndication::Unresolved, type_mark: tm(k), constraint: None }
}

fn signal(k: u64) -> Declaration {
    Declaration::Object(ObjectDeclaration {
        class: ObjectClass::Signal,
        ident: ident(other(k)),
        subtype_indication: subtype_ref(k),
        expression: None,
    })
}

fn port(k: u64) -> InterfaceDeclaration {
    InterfaceDeclaration::Object(InterfaceObjectDeclaration {
        class: ObjectClass::Signal,
        ident: ident(other(k)),
        mode: Mode::In,
        subtype_indication: subtype_ref(k),
        expression: None,
    })
}

fn body(decl: Option<Vec<Declaration>>, statements: Vec<LabeledConcurrentStatement>) -> GenerateBody {
    GenerateBody { alternative_label: None, decl, statements }
}

fn statement(statement: ConcurrentStatement) -> LabeledConcurrentStatement {
    LabeledConcurrentStatement { label: None, statement }
}

fn entity() -> EntityUnit {
    DesignUnit {
        context_clause: vec![WithPos::new(
            ContextItem::Use(UseClause {
                name_list: vec![WithPos::new(Name::Designator(des(Some(d()))), r(1))],
            }),
            r(1),
        )],
        unit: EntityDeclaration {
            ident: ident(d()),
            generic_clause: Some(vec![port(2)]),
            port_clause: Some(vec![port(3)]),
            decl: vec![signal(4)],
            statements: vec![
                statement(ConcurrentStatement::Block(BlockStatement {
                    decl: vec![signal(5)],
                    statements: vec![statement(ConcurrentStatement::ForGenerate(ForGenerateStatement {
                        index_name: ident(other(1)),
                        // The range of a for-generate statement is not searched.
                        discrete_range: DiscreteRange::Range(Range::Range(RangeConstraint {
                            direction: Direction::Ascending,
                            left_expr: Box::new(expr_ref(900)),
                            right_expr: Box::new(WithPos::new(Expression::Literal(Literal::Integer(1)), other(2))),
                        })),
                        body: body(Some(vec![signal(6)]), Vec::new()),
                    }))],
                })),
                statement(ConcurrentStatement::IfGenerate(Conditionals {
                    conditionals: vec![Conditional {
                        // The condition of an if-generate statement is not searched.
                        condition: expr_ref(901),
                        item: body(None, vec![statement(ConcurrentStatement::Instance(InstantiationStatement {
                            unit: InstantiatedUnit::Entity(tm(7), None),
                            generic_map: Vec::new(),
                            port_map: Vec::new(),
                        }))]),
                    }],
                    else_item: Some(body(Some(vec![signal(8)]), Vec::new())),
                })),
                statement(ConcurrentStatement::CaseGenerate(Selection {
                    expression: expr_ref(902),
                    alternatives: vec![Alternative {
                        choices: vec![Choice::Others],
                        item: body(Some(vec![signal(9)]), Vec::new()),
                    }],
                })),
                // Component instances and concurrent procedure calls are not searched.
                statement(ConcurrentStatement::Instance(InstantiationStatement {
                    unit: InstantiatedUnit::Component(tm(903)),
                    generic_map: Vec::new(),
                    port_map: Vec::new(),
                })),
                statement(ConcurrentStatement::ProcedureCall(FunctionCall {
                    name: WithPos::new(Name::Designator(des(Some(d()))), r(904)),
                    parameters: Vec::new(),
                })),
            ],
        },
    }
}

#[test]
fn entity_is_searched_in_order() {
    let found = FindAllReferences::new(&d()).search(&entity());
    assert_eq!(found, vec![r(1), d(), r(2), r(3), r(4), r(5), r(6), r(7), r(8), r(9)]);
}

#[test]
fn package_body_is_searched_in_order() {
    let unit: PackageBodyUnit = DesignUnit {
        context_clause: vec![WithPos::new(ContextItem::Library(LibraryClause { name_list: vec![ident(d())] }), r(20))],
        unit: PackageBody {
            ident: WithRef::new(ident(r(21)), Some(d())),
            decl: vec![signal(22)],
        },
    };
    // The name of a package body comes before its context clause.
    let found = FindAllReferences::new(&d()).search(&unit);
    assert_eq!(found, vec![r(21), d(), r(22)]);
    let mut searcher = ItemAtCursor::new(&Source::new(4), Position::new(21, 1));
    let at_name: Option<SrcPos> = unit.search(&mut searcher).into();
    assert_eq!(at_name, Some(d()));
}

#[test]
fn package_instance_is_searched_in_order() {
    let unit: PackageInstanceUnit = DesignUnit {
        context_clause: Vec::new(),
        unit: PackageInstantiation { ident: ident(d()), package_name: tm(30), generic_map: None },
    };
    let found = FindAllReferences::new(&d()).search(&unit);
    assert_eq!(found, vec![d(), r(30)]);
}

#[test]
fn configuration_is_searched_in_order() {
    let unit: ConfigurationUnit = DesignUnit {
        context_clause: vec![WithPos::new(
            ContextItem::Use(UseClause { name_list: vec![WithPos::new(Name::Designator(des(Some(d()))), r(41))] }),
            r(41),
        )],
        unit: ConfigurationDeclaration { ident: ident(r(40)), entity_name: tm(42) },
    };
    let found = FindAllReferences::new(&d()).search(&unit);
    assert_eq!(found, vec![r(41), r(42)]);
    let mut searcher = ItemAtCursor::new(&Source::new(4), Position::new(40, 2));
    let at_name: Option<SrcPos> = unit.search(&mut searcher).into();
    assert_eq!(at_name, Some(r(40)));
}

#[test]
fn context_declaration_is_searched_in_order() {
    let unit = ContextDeclaration {
        ident: ident(d()),
        items: vec![WithPos::new(
            ContextItem::Use(UseClause { name_list: vec![WithPos::new(Name::Designator(des(Some(d()))), r(50))] }),
            r(50),
        )],
    };
    let found = FindAllReferences::new(&d()).search(&unit);
    assert_eq!(found, vec![d(), r(50)]);
}

#[test]
fn design_unit_in_other_file_is_skipped_by_cursor() {
    let mut here = ItemAtCursor::new(&Source::new(4), Position::new(7, 1));
    let found: Option<SrcPos> = entity().search(&mut here).into();
    assert_eq!(found, Some(d()));
    let mut elsewhere = ItemAtCursor::new(&Source::new(5), Position::new(7, 1));
    let found: Option<SrcPos> = entity().search(&mut elsewhere).into();
    assert_eq!(found, None);
}

#[test]
fn item_at_cursor_is_among_references_of_what_it_finds() {
    let mut searcher = ItemAtCursor::new(&Source::new(4), Position::new(8, 2));
    let found: Option<SrcPos> = entity().search(&mut searcher).into();
    let item = found.unwrap();
    let references = FindAllReferences::new(&item).search(&entity());
    assert!(references.contains(&r(8)));
}

#[test]
fn unsearched_parts_are_skipped_by_cursor() {
    for k in 900..905 {
        let mut searcher = ItemAtCursor::new(&Source::new(4), Position::new(k, 1));
        let found: Option<SrcPos> = entity().search(&mut searcher).into();
        assert_eq!(found, None);
    }
}
