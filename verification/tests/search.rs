use vhdl_parser::ast::{
    ArchitectureBody, ArchitectureUnit, AssignmentRightHand, ConcurrentStatement, Declaration,
    DesignUnit, Designator, EntityDeclaration, EntityUnit, Expression, Literal, Name,
    ObjectClass, ObjectDeclaration, Operator, PackageDeclaration, PackageUnit, ProcessStatement,
    ResolutionIndication, SelectedName, SequentialStatement, SubtypeIndication, Target,
    LabeledConcurrentStatement, LabeledSequentialStatement, VariableAssignment,
};
use vhdl_parser::cursor::ItemAtCursor;
use vhdl_parser::references::FindAllReferences;
use vhdl_parser::search::{Search, SearchResult, SearchState};
use vhdl_parser::source::{Ident, Position, Source, SrcPos, Symbol, WithPos, WithRef};

fn pos(file: u64, line: u64, start: u64, end: u64) -> SrcPos {
    SrcPos::new(Source::new(file), Position::new(line, start), Position::new(line, end))
}

fn ident(id: u64, p: SrcPos) -> Ident {
    WithPos::new(Symbol { id }, p)
}

fn designator(id: u64, reference: Option<SrcPos>) -> WithRef<Designator> {
    WithRef::new(Designator::Identifier(Symbol { id }), reference)
}

fn type_mark(p: SrcPos, reference: Option<SrcPos>) -> WithPos<SelectedName> {
    WithPos::new(SelectedName::Designator(designator(100, reference)), p)
}

fn subtype(p: SrcPos, reference: Option<SrcPos>) -> SubtypeIndication {
    SubtypeIndication {
        resolution: ResolutionIndication::Unresolved,
        type_mark: type_mark(p, reference),
        constraint: None,
    }
}

fn name_expr(id: u64, p: SrcPos, reference: Option<SrcPos>) -> WithPos<Expression> {
    WithPos::new(Expression::Name(Box::new(Name::Designator(designator(id, reference)))), p)
}

fn constant(id: u64, ident_pos: SrcPos, type_pos: SrcPos, value: WithPos<Expression>) -> Declaration {
    Declaration::Object(ObjectDeclaration {
        class: ObjectClass::Constant,
        ident: ident(id, ident_pos),
        subtype_indication: subtype(type_pos, Some(integer_decl())),
        expression: Some(value),
    })
}

/// Where the type `integer` is declared, in another file.
fn integer_decl() -> SrcPos {
    pos(9, 10, 5, 12)
}

fn c1_decl() -> SrcPos {
    pos(1, 1, 11, 13)
}

fn c2_decl() -> SrcPos {
    pos(1, 2, 11, 13)
}

/// package pkg is
///   constant c1 : integer := 0;
///   constant c2 : integer := c1;
///   constant c3 : integer := c1 + c2;
/// end package;
fn package() -> PackageUnit {
    let literal = WithPos::new(Expression::Literal(Literal::Integer(0)), pos(1, 1, 25, 26));
    let c1_use = name_expr(1, pos(1, 2, 25, 27), Some(c1_decl()));
    let sum = WithPos::new(
        Expression::Binary(
            WithPos::new(Operator::Plus, pos(1, 3, 28, 29)),
            Box::new(name_expr(1, pos(1, 3, 25, 27), Some(c1_decl()))),
            Box::new(name_expr(2, pos(1, 3, 30, 32), Some(c2_decl()))),
        ),
        pos(1, 3, 25, 32),
    );
    DesignUnit {
        context_clause: Vec::new(),
        unit: PackageDeclaration {
            ident: ident(10, pos(1, 0, 8, 11)),
            generic_clause: None,
            decl: vec![
                constant(1, c1_decl(), pos(1, 1, 14, 21), literal),
                constant(2, c2_decl(), pos(1, 2, 14, 21), c1_use),
                constant(3, pos(1, 3, 11, 13), pos(1, 3, 14, 21), sum),
            ],
        },
    }
}

fn item_at(file: u64, line: u64, character: u64) -> Option<SrcPos> {
    let unit = package();
    let mut searcher = ItemAtCursor::new(&Source::new(file), Position::new(line, character));
    unit.search(&mut searcher).into()
}

#[test]
fn find_all_references_of_first_constant() {
    let found = FindAllReferences::new(&c1_decl()).search(&package());
    assert_eq!(found, vec![c1_decl(), pos(1, 2, 25, 27), pos(1, 3, 25, 27)]);
}

#[test]
fn find_all_references_of_second_constant() {
    let found = FindAllReferences::new(&c2_decl()).search(&package());
    assert_eq!(found, vec![c2_decl(), pos(1, 3, 30, 32)]);
}

#[test]
fn find_all_references_of_type_in_other_file() {
    let found = FindAllReferences::new(&integer_decl()).search(&package());
    assert_eq!(found, vec![pos(1, 1, 14, 21), pos(1, 2, 14, 21), pos(1, 3, 14, 21)]);
}

#[test]
fn find_all_references_of_unused_position_is_empty() {
    let found = FindAllReferences::new(&pos(1, 7, 0, 1)).search(&package());
    assert_eq!(found, Vec::<SrcPos>::new());
}

#[test]
fn find_all_references_in_a_list_of_declarations() {
    let decls = package().unit.decl;
    let found = FindAllReferences::new(&c1_decl()).search(&decls);
    assert_eq!(found, vec![c1_decl(), pos(1, 2, 25, 27), pos(1, 3, 25, 27)]);
}

#[test]
fn item_at_cursor_on_reference_gives_declaration() {
    assert_eq!(item_at(1, 2, 26), Some(c1_decl()));
    assert_eq!(item_at(1, 3, 31), Some(c2_decl()));
}

#[test]
fn item_at_cursor_touches_both_neighbouring_characters() {
    // The cursor is the gap between two characters: it touches a name that
    // starts right after it and one that ends right before it.
    assert_eq!(item_at(1, 2, 25), Some(c1_decl()));
    assert_eq!(item_at(1, 2, 27), Some(c1_decl()));
    assert_eq!(item_at(1, 2, 28), None);
}

#[test]
fn item_at_cursor_on_declaration_gives_declaration() {
    assert_eq!(item_at(1, 2, 12), Some(c2_decl()));
    assert_eq!(item_at(1, 0, 9), Some(pos(1, 0, 8, 11)));
}

#[test]
fn item_at_cursor_on_type_mark_gives_type_declaration() {
    assert_eq!(item_at(1, 1, 16), Some(integer_decl()));
}

#[test]
fn item_at_cursor_away_from_names_finds_nothing() {
    assert_eq!(item_at(1, 1, 25), None);
    assert_eq!(item_at(1, 5, 0), None);
}

#[test]
fn item_at_cursor_in_other_file_finds_nothing() {
    assert_eq!(item_at(2, 2, 26), None);
}

#[test]
fn search_state_or_else() {
    let finished: SearchState<u32> = SearchState::Finished(SearchResult::Found(3));
    let r: Option<u32> = finished.or_else(|| SearchResult::Found(4)).into();
    assert_eq!(r, Some(3));
    let not_finished: SearchState<u32> = SearchState::NotFinished;
    let r: Option<u32> = not_finished.or_else(|| SearchResult::Found(4)).into();
    assert_eq!(r, Some(4));
    let stopped: SearchState<u32> = SearchState::Finished(SearchResult::NotFound);
    let r: Option<u32> = stopped.or_else(|| SearchResult::Found(4)).into();
    assert_eq!(r, None);
}

#[test]
fn search_state_or_not_found() {
    let finished: SearchState<u32> = SearchState::Finished(SearchResult::Found(7));
    let r: Option<u32> = finished.or_not_found().into();
    assert_eq!(r, Some(7));
    let not_finished: SearchState<u32> = SearchState::NotFinished;
    let r: Option<u32> = not_finished.or_not_found().into();
    assert_eq!(r, None);
}

#[test]
fn search_result_into_option() {
    let found: Option<u8> = SearchResult::Found(1u8).into();
    assert_eq!(found, Some(1));
    let not_found: Option<u8> = SearchResult::<u8>::NotFound.into();
    assert_eq!(not_found, None);
}

#[test]
fn search_of_absent_option_finds_nothing() {
    let nothing: Option<Declaration> = None;
    let found = FindAllReferences::new(&c1_decl()).search(&nothing);
    assert_eq!(found, Vec::<SrcPos>::new());
}

/// entity ent is end entity;
/// architecture rtl of ent is
///   signal s : integer;
/// begin
///   main : process
///     variable v : integer;
///   begin
///     s_alias := v;
///   end process;
/// end architecture;
fn architecture() -> ArchitectureUnit {
    let sig = Declaration::Object(ObjectDeclaration {
        class: ObjectClass::Signal,
        ident: ident(21, pos(1, 2, 9, 10)),
        subtype_indication: subtype(pos(1, 2, 13, 20), Some(integer_decl())),
        expression: None,
    });
    let var = Declaration::Object(ObjectDeclaration {
        class: ObjectClass::Variable,
        ident: ident(22, pos(1, 5, 13, 14)),
        subtype_indication: subtype(pos(1, 5, 17, 24), Some(integer_decl())),
        expression: None,
    });
    let assign = LabeledSequentialStatement {
        label: None,
        statement: SequentialStatement::VariableAssignment(VariableAssignment {
            target: WithPos::new(
                Target::Name(Name::Designator(designator(21, Some(pos(1, 2, 9, 10))))),
                pos(1, 7, 4, 5),
            ),
            rhs: AssignmentRightHand::Simple(name_expr(22, pos(1, 7, 9, 10), Some(pos(1, 5, 13, 14)))),
        }),
    };
    let process = LabeledConcurrentStatement {
        label: Some(ident(23, pos(1, 4, 2, 6))),
        statement: ConcurrentStatement::Process(ProcessStatement {
            postponed: false,
            decl: vec![var],
            statements: vec![assign],
        }),
    };
    DesignUnit {
        context_clause: Vec::new(),
        unit: ArchitectureBody {
            ident: ident(24, pos(1, 1, 13, 16)),
            entity_name: WithRef::new(ident(20, pos(1, 1, 20, 23)), Some(pos(1, 0, 7, 10))),
            decl: vec![sig],
            statements: vec![process],
        },
    }
}

fn entity() -> EntityUnit {
    DesignUnit {
        context_clause: Vec::new(),
        unit: EntityDeclaration {
            ident: ident(20, pos(1, 0, 7, 10)),
            generic_clause: None,
            port_clause: None,
            decl: Vec::new(),
            statements: Vec::new(),
        },
    }
}

#[test]
fn architecture_entity_name_refers_to_entity() {
    let mut searcher = ItemAtCursor::new(&Source::new(1), Position::new(1, 21));
    let found: Option<SrcPos> = architecture().search(&mut searcher).into();
    assert_eq!(found, Some(pos(1, 0, 7, 10)));
    let references = FindAllReferences::new(&pos(1, 0, 7, 10)).search(&architecture());
    assert_eq!(references, vec![pos(1, 1, 20, 23)]);
    let in_entity = FindAllReferences::new(&pos(1, 0, 7, 10)).search(&entity());
    assert_eq!(in_entity, vec![pos(1, 0, 7, 10)]);
}

#[test]
fn references_inside_a_process() {
    let signal_refs = FindAllReferences::new(&pos(1, 2, 9, 10)).search(&architecture());
    assert_eq!(signal_refs, vec![pos(1, 2, 9, 10), pos(1, 7, 4, 5)]);
    let variable_refs = FindAllReferences::new(&pos(1, 5, 13, 14)).search(&architecture());
    assert_eq!(variable_refs, vec![pos(1, 5, 13, 14), pos(1, 7, 9, 10)]);
    let label_refs = FindAllReferences::new(&pos(1, 4, 2, 6)).search(&architecture());
    assert_eq!(label_refs, vec![pos(1, 4, 2, 6)]);
}

#[test]
fn item_at_cursor_inside_a_process() {
    let mut on_target = ItemAtCursor::new(&Source::new(1), Position::new(7, 4));
    let found: Option<SrcPos> = architecture().search(&mut on_target).into();
    assert_eq!(found, Some(pos(1, 2, 9, 10)));
    let mut on_value = ItemAtCursor::new(&Source::new(1), Position::new(7, 10));
    let found: Option<SrcPos> = architecture().search(&mut on_value).into();
    assert_eq!(found, Some(pos(1, 5, 13, 14)));
    let mut on_label = ItemAtCursor::new(&Source::new(1), Position::new(4, 3));
    let found: Option<SrcPos> = architecture().search(&mut on_label).into();
    assert_eq!(found, Some(pos(1, 4, 2, 6)));
}

#[test]
fn item_at_cursor_can_be_used_again() {
    // Searching never changes the cursor searcher: a second search of the
    // same tree gives the same answer.
    let unit = package();
    let mut searcher = ItemAtCursor::new(&Source::new(1), Position::new(3, 31));
    let first: Option<SrcPos> = unit.search(&mut searcher).into();
    let second: Option<SrcPos> = unit.search(&mut searcher).into();
    assert_eq!(first, Some(c2_decl()));
    assert_eq!(second, first);
}
