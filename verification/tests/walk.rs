use vhdl_parser::ast::{
    ActualPart, AliasDeclaration, Allocator, ArrayIndex, AssignmentRightHand, AssociationElement,
    Attribute, AttributeDeclaration, AttributeName, Choice, ComponentDeclaration, Conditional,
    Conditionals, ContextItem, ContextReference, Declaration, DesignUnit, Designator, Direction,
    DiscreteRange, ElementAssociation, ElementConstraint, ElementDeclaration, Expression,
    ExternalName, FileDeclaration, FunctionCall, FunctionSpecification, InterfaceDeclaration,
    InterfaceObjectDeclaration, LabeledSequentialStatement, LibraryClause, Literal, Mode, Name,
    ObjectClass, ObjectDeclaration, Operator, PackageDeclaration, PackageUnit,
    ProcedureSpecification, ProtectedTypeBody, ProtectedTypeDeclaration,
    ProtectedTypeDeclarativeItem, QualifiedExpression, Range, RangeConstraint,
    ResolutionIndication, ReturnStatement, SelectedName, SequentialStatement, SubprogramBody,
    SubprogramDeclaration, SubtypeConstraint, SubtypeIndication, Target, TypeDeclaration,
    TypeDefinition, UseClause, VariableAssignment,
};
use vhdl_parser::cursor::ItemAtCursor;
use vhdl_parser::references::FindAllReferences;
use vhdl_parser::search::Search;
use vhdl_parser::source::{Ident, Position, Source, SrcPos, Symbol, WithPos, WithRef};

/// The declaration that every reference below refers to.
fn d() -> SrcPos {
    SrcPos::new(Source::new(1), Position::new(0, 0), Position::new(0, 1))
}

/// The position of reference number `k`.
fn r(k: u64) -> SrcPos {
    SrcPos::new(Source::new(1), Position::new(k, 0), Position::new(k, 1))
}

/// A position that nothing refers to.
fn other(k: u64) -> SrcPos {
    SrcPos::new(Source::new(1), Position::new(1000 + k, 0), Position::new(1000 + k, 1))
}

fn ident(p: SrcPos) -> Ident {
    WithPos::new(Symbol { id: 1 }, p)
}

fn des(reference: Option<SrcPos>) -> WithRef<Designator> {
    WithRef::new(Designator::Identifier(Symbol { id: 2 }), reference)
}

fn name_ref(k: u64) -> WithPos<Name> {
    WithPos::new(Name::Designator(des(Some(d()))), r(k))
}

fn tm(k: u64) -> WithPos<SelectedName> {
    WithPos::new(SelectedName::Designator(des(Some(d()))), r(k))
}

fn expr_ref(k: u64) -> WithPos<Expression> {
    WithPos::new(Expression::Name(Box::new(Name::Designator(des(Some(d()))))), r(k))
}

fn literal(k: u64) -> WithPos<Expression> {
    WithPos::new(Expression::Literal(Literal::Integer(k)), other(k))
}

fn subtype_ref(k: u64) -> SubtypeIndication {
    SubtypeIndication {
        resolution: ResolutionIndication::Unresolved,
        type_mark: tm(k),
        constraint: None,
    }
}

fn plain_subtype() -> SubtypeIndication {
    SubtypeIndication {
        resolution: ResolutionIndication::Unresolved,
        type_mark: WithPos::new(SelectedName::Designator(des(None)), other(0)),
        constraint: None,
    }
}

fn interface_object(k: u64) -> InterfaceDeclaration {
    InterfaceDeclaration::Object(InterfaceObjectDeclaration {
        class: ObjectClass::Constant,
        ident: ident(other(k)),
        mode: Mode::In,
        subtype_indication: subtype_ref(k),
        expression: None,
    })
}

fn type_decl(def: TypeDefinition) -> Declaration {
    Declaration::Type(TypeDeclaration { ident: ident(other(1)), def })
}

fn object_with(expr: WithPos<Expression>) -> Declaration {
    Declaration::Object(ObjectDeclaration {
        class: ObjectClass::Constant,
        ident: ident(other(2)),
        subtype_indication: plain_subtype(),
        expression: Some(expr),
    })
}

fn at_other(e: Expression) -> WithPos<Expression> {
    WithPos::new(e, other(3))
}

fn declarations() -> Vec<Declaration> {
    vec![
        type_decl(TypeDefinition::Record(vec![ElementDeclaration {
            ident: ident(other(4)),
            subtype: subtype_ref(5),
        }])),
        type_decl(TypeDefinition::Array(
            vec![
                ArrayIndex::IndexSubtypeDefintion(tm(6)),
                ArrayIndex::Discrete(DiscreteRange::Discrete(
                    tm(7),
                    Some(Range::Range(RangeConstraint {
                        direction: Direction::Ascending,
                        left_expr: Box::new(expr_ref(8)),
                        right_expr: Box::new(literal(1)),
                    })),
                )),
            ],
            subtype_ref(9),
        )),
        type_decl(TypeDefinition::Protected(ProtectedTypeDeclaration {
            items: vec![ProtectedTypeDeclarativeItem::Subprogram(SubprogramDeclaration::Procedure(
                ProcedureSpecification {
                    designator: WithPos::new(Designator::Identifier(Symbol { id: 3 }), other(5)),
                    parameter_list: vec![interface_object(10)],
                },
            ))],
        })),
        type_decl(TypeDefinition::ProtectedBody(ProtectedTypeBody {
            decl: vec![Declaration::Object(ObjectDeclaration {
                class: ObjectClass::Variable,
                ident: ident(other(6)),
                subtype_indication: subtype_ref(11),
                expression: None,
            })],
        })),
        type_decl(TypeDefinition::Access(SubtypeIndication {
            resolution: ResolutionIndication::Unresolved,
            type_mark: tm(12),
            constraint: Some(WithPos::new(
                SubtypeConstraint::Array(
                    vec![DiscreteRange::Range(Range::Attribute(Box::new(AttributeName {
                        name: name_ref(13),
                        attr: ident(other(7)),
                        // The expression of an attribute used as a range is not searched.
                        expr: Some(Box::new(expr_ref(900))),
                    })))],
                    None,
                ),
                other(8),
            )),
        })),
        type_decl(TypeDefinition::Subtype(SubtypeIndication {
            resolution: ResolutionIndication::Unresolved,
            type_mark: tm(15),
            constraint: Some(WithPos::new(
                SubtypeConstraint::Record(vec![ElementConstraint {
                    ident: ident(other(9)),
                    constraint: Box::new(WithPos::new(
                        SubtypeConstraint::Range(Range::Range(RangeConstraint {
                            direction: Direction::Descending,
                            left_expr: Box::new(expr_ref(16)),
                            right_expr: Box::new(expr_ref(17)),
                        })),
                        other(10),
                    )),
                }]),
                other(11),
            )),
        })),
        type_decl(TypeDefinition::Enumeration(vec![ident(other(12))])),
        Declaration::SubprogramBody(SubprogramBody {
            specification: SubprogramDeclaration::Function(FunctionSpecification {
                pure: true,
                designator: WithPos::new(Designator::Identifier(Symbol { id: 4 }), other(13)),
                parameter_list: vec![interface_object(18)],
                return_type: tm(19),
            }),
            declarations: vec![Declaration::Alias(AliasDeclaration {
                designator: WithPos::new(Designator::Identifier(Symbol { id: 5 }), other(14)),
                subtype_indication: Some(subtype_ref(20)),
                // The aliased name is not searched.
                name: name_ref(901),
            })],
            statements: vec![
                LabeledSequentialStatement {
                    label: None,
                    statement: SequentialStatement::Return(ReturnStatement {
                        expression: Some(at_other(Expression::Qualified(Box::new(QualifiedExpression {
                            name: tm(21),
                            expr: expr_ref(22),
                        })))),
                    }),
                },
                LabeledSequentialStatement {
                    label: None,
                    statement: SequentialStatement::ProcedureCall(FunctionCall {
                        name: name_ref(23),
                        parameters: vec![
                            AssociationElement {
                                // A formal part is not searched.
                                formal: Some(name_ref(902)),
                                actual: WithPos::new(
                                    ActualPart::Expression(Expression::Name(Box::new(Name::Designator(
                                        des(Some(d())),
                                    )))),
                                    r(24),
                                ),
                            },
                            AssociationElement { formal: None, actual: WithPos::new(ActualPart::Open, other(15)) },
                        ],
                    }),
                },
                LabeledSequentialStatement {
                    label: None,
                    statement: SequentialStatement::VariableAssignment(VariableAssignment {
                        target: WithPos::new(Target::Name(Name::Designator(des(Some(d())))), r(25)),
                        rhs: AssignmentRightHand::Conditional(Conditionals {
                            conditionals: vec![Conditional { condition: expr_ref(27), item: expr_ref(26) }],
                            else_item: Some(expr_ref(28)),
                        }),
                    }),
                },
            ],
        }),
        Declaration::Attribute(Attribute::Declaration(AttributeDeclaration {
            ident: ident(other(16)),
            type_mark: tm(29),
        })),
        Declaration::Use(WithPos::new(UseClause { name_list: vec![name_ref(30)] }, other(17))),
        Declaration::Component(ComponentDeclaration {
            ident: ident(other(18)),
            generic_list: vec![interface_object(31)],
            port_list: vec![interface_object(32)],
        }),
        // A file declaration is not searched.
        Declaration::File(FileDeclaration {
            ident: ident(other(19)),
            subtype_indication: subtype_ref(903),
            file_name: None,
        }),
        object_with(at_other(Expression::Aggregate(vec![
            ElementAssociation::Named(
                vec![
                    Choice::DiscreteRange(DiscreteRange::Range(Range::Range(RangeConstraint {
                        direction: Direction::Ascending,
                        left_expr: Box::new(expr_ref(33)),
                        right_expr: Box::new(literal(2)),
                    }))),
                    // A choice that is an expression is not searched.
                    Choice::Expression(expr_ref(904)),
                    Choice::Others,
                ],
                expr_ref(34),
            ),
            ElementAssociation::Positional(expr_ref(35)),
        ]))),
        object_with(at_other(Expression::New(Box::new(WithPos::new(
            Allocator::Subtype(subtype_ref(36)),
            other(20),
        ))))),
        object_with(at_other(Expression::Unary(
            WithPos::new(Operator::Not, other(21)),
            Box::new(at_other(Expression::Name(Box::new(Name::Selected(
                Box::new(name_ref(38)),
                WithPos::new(des(Some(d())), r(39)),
            ))))),
        ))),
        object_with(at_other(Expression::Name(Box::new(Name::SelectedAll(Box::new(name_ref(40))))))),
        object_with(at_other(Expression::Name(Box::new(Name::Indexed(
            Box::new(name_ref(41)),
            // The indexes are not searched.
            vec![expr_ref(905)],
        ))))),
        object_with(at_other(Expression::Name(Box::new(Name::Slice(
            Box::new(name_ref(42)),
            Box::new(DiscreteRange::Discrete(tm(43), None)),
        ))))),
        object_with(at_other(Expression::Name(Box::new(Name::FunctionCall(Box::new(FunctionCall {
            name: name_ref(44),
            parameters: Vec::new(),
        })))))),
        object_with(at_other(Expression::Name(Box::new(Name::Attribute(Box::new(AttributeName {
            name: name_ref(45),
            attr: ident(other(22)),
            expr: Some(Box::new(expr_ref(46))),
        })))))),
        // An external name is not searched.
        object_with(at_other(Expression::Name(Box::new(Name::External(Box::new(ExternalName {
            path: name_ref(906),
            subtype: subtype_ref(907),
        })))))),
    ]
}

fn package() -> PackageUnit {
    DesignUnit {
        context_clause: vec![
            WithPos::new(ContextItem::Use(UseClause { name_list: vec![name_ref(1)] }), other(30)),
            WithPos::new(ContextItem::Library(LibraryClause { name_list: vec![ident(d())] }), other(31)),
            WithPos::new(ContextItem::Context(ContextReference { name_list: vec![name_ref(2)] }), other(32)),
        ],
        unit: PackageDeclaration {
            ident: ident(other(33)),
            generic_clause: Some(vec![
                interface_object(3),
                InterfaceDeclaration::Subprogram(
                    SubprogramDeclaration::Function(FunctionSpecification {
                        pure: true,
                        designator: WithPos::new(Designator::Identifier(Symbol { id: 6 }), other(34)),
                        parameter_list: Vec::new(),
                        return_type: tm(4),
                    }),
                    None,
                ),
                // An interface type holds nothing that is searched.
                InterfaceDeclaration::Type(ident(other(35))),
            ]),
            decl: declarations(),
        },
    }
}

#[test]
fn every_kind_of_node_is_searched_in_order() {
    let found = FindAllReferences::new(&d()).search(&package());
    let mut expected = vec![r(1), d(), r(2)];
    for k in 3..=13 {
        expected.push(r(k));
    }
    for k in 15..=36 {
        expected.push(r(k));
    }
    for k in 38..=46 {
        expected.push(r(k));
    }
    assert_eq!(found, expected);
}

#[test]
fn declarations_alone_are_searched_in_order() {
    let found = FindAllReferences::new(&d()).search(&declarations());
    let mut expected = Vec::new();
    for k in 5..=13 {
        expected.push(r(k));
    }
    for k in 15..=36 {
        expected.push(r(k));
    }
    for k in 38..=46 {
        expected.push(r(k));
    }
    assert_eq!(found, expected);
}

fn cursor_at_reference(k: u64) -> Option<SrcPos> {
    let mut searcher = ItemAtCursor::new(&Source::new(1), Position::new(k, 0));
    package().search(&mut searcher).into()
}

#[test]
fn item_at_cursor_in_names_that_are_asked_about_their_position() {
    // These references sit in parts whose own position is elsewhere: a name
    // that is asked about its position and does not touch the cursor is
    // still searched.
    assert_eq!(cursor_at_reference(24), Some(d()));
    assert_eq!(cursor_at_reference(38), Some(d()));
    assert_eq!(cursor_at_reference(46), Some(d()));
}

#[test]
fn item_at_cursor_not_in_context_items_away_from_cursor() {
    // Context items are asked about their own position first.
    assert_eq!(cursor_at_reference(1), None);
    assert_eq!(cursor_at_reference(2), None);
}

#[test]
fn item_at_cursor_not_in_unsearched_parts() {
    assert_eq!(cursor_at_reference(900), None);
    assert_eq!(cursor_at_reference(903), None);
    assert_eq!(cursor_at_reference(906), None);
}

#[test]
fn item_at_cursor_stops_at_a_guarded_part_away_from_cursor() {
    // A use clause is asked about its own position first; the name inside it
    // is not searched when that position does not touch the cursor.
    let use_decl = Declaration::Use(WithPos::new(UseClause { name_list: vec![name_ref(50)] }, other(40)));
    let mut searcher = ItemAtCursor::new(&Source::new(1), Position::new(50, 0));
    let found: Option<SrcPos> = use_decl.search(&mut searcher).into();
    assert_eq!(found, None);

    // A selected name is guarded too.
    let selected = WithPos::new(
        SelectedName::Selected(Box::new(tm(51)), WithPos::new(des(Some(d())), r(52))),
        other(41),
    );
    let mut searcher = ItemAtCursor::new(&Source::new(1), Position::new(51, 0));
    let found: Option<SrcPos> = selected.search(&mut searcher).into();
    assert_eq!(found, None);

    // A name is not: it is searched even when its own position does not
    // touch the cursor.
    let name = WithPos::new(
        Name::Selected(Box::new(name_ref(53)), WithPos::new(des(Some(d())), r(54))),
        other(42),
    );
    let mut searcher = ItemAtCursor::new(&Source::new(1), Position::new(53, 0));
    let found: Option<SrcPos> = name.search(&mut searcher).into();
    assert_eq!(found, Some(d()));
}

#[test]
fn item_at_cursor_on_unresolved_reference_finds_nothing() {
    let name = WithPos::new(Name::Designator(des(None)), r(60));
    let mut searcher = ItemAtCursor::new(&Source::new(1), Position::new(60, 1));
    let found: Option<SrcPos> = name.search(&mut searcher).into();
    assert_eq!(found, None);
}

#[test]
fn item_at_cursor_first_match_wins() {
    // Two references touch the cursor; the first one met is the answer.
    let first = SrcPos::new(Source::new(1), Position::new(0, 5), Position::new(0, 6));
    let second = SrcPos::new(Source::new(1), Position::new(0, 7), Position::new(0, 8));
    let here = SrcPos::new(Source::new(1), Position::new(70, 0), Position::new(70, 3));
    let names = vec![
        WithPos::new(Name::Designator(des(Some(first))), here),
        WithPos::new(Name::Designator(des(Some(second))), here),
    ];
    let mut searcher = ItemAtCursor::new(&Source::new(1), Position::new(70, 2));
    let found: Option<SrcPos> = names.search(&mut searcher).into();
    assert_eq!(found, Some(first));
}
