//! The parts of the VHDL syntax tree that searching walks through.

use vstd::prelude::*;
use crate::source::{Ident, Source, Symbol, WithPos, WithRef};

verus! {

/// A name as written at a use site: an identifier, an operator symbol or a
/// character literal.
pub enum Designator {
    Identifier(Symbol),
    OperatorSymbol(Symbol),
    Character(u8),
}

pub enum Operator {
    And,
    Or,
    Not,
    Equal,
    Plus,
    Minus,
    Times,
    Concat,
}

pub enum Literal {
    Integer(u64),
    Character(u8),
    String(Symbol),
    Null,
}

pub enum Direction {
    Ascending,
    Descending,
}

/// A name made of selections only: `lib.pkg.item`.
pub enum SelectedName {
    Designator(WithRef<Designator>),
    Selected(Box<WithPos<SelectedName>>, WithPos<WithRef<Designator>>),
}

pub enum Name {
    Designator(WithRef<Designator>),
    Selected(Box<WithPos<Name>>, WithPos<WithRef<Designator>>),
    SelectedAll(Box<WithPos<Name>>),
    Indexed(Box<WithPos<Name>>, Vec<WithPos<Expression>>),
    Slice(Box<WithPos<Name>>, Box<DiscreteRange>),
    Attribute(Box<AttributeName>),
    FunctionCall(Box<FunctionCall>),
    External(Box<ExternalName>),
}

/// `name'attr(expr)`.
pub struct AttributeName {
    pub name: WithPos<Name>,
    pub attr: Ident,
    pub expr: Option<Box<WithPos<Expression>>>,
}

/// `<< signal .path : subtype >>`.
pub struct ExternalName {
    pub path: WithPos<Name>,
    pub subtype: SubtypeIndication,
}

pub struct FunctionCall {
    pub name: WithPos<Name>,
    pub parameters: Vec<AssociationElement>,
}

pub struct AssociationElement {
    pub formal: Option<WithPos<Name>>,
    pub actual: WithPos<ActualPart>,
}

pub enum ActualPart {
    Expression(Expression),
    Open,
}

pub enum Expression {
    Binary(WithPos<Operator>, Box<WithPos<Expression>>, Box<WithPos<Expression>>),
    Unary(WithPos<Operator>, Box<WithPos<Expression>>),
    Aggregate(Vec<ElementAssociation>),
    Qualified(Box<QualifiedExpression>),
    Name(Box<Name>),
    Literal(Literal),
    New(Box<WithPos<Allocator>>),
}

pub enum ElementAssociation {
    Positional(WithPos<Expression>),
    Named(Vec<Choice>, WithPos<Expression>),
}

pub enum Choice {
    Expression(WithPos<Expression>),
    DiscreteRange(DiscreteRange),
    Others,
}

/// `type_mark'(expr)`.
pub struct QualifiedExpression {
    pub name: WithPos<SelectedName>,
    pub expr: WithPos<Expression>,
}

pub enum Allocator {
    Qualified(QualifiedExpression),
    Subtype(SubtypeIndication),
}

pub struct RangeConstraint {
    pub direction: Direction,
    pub left_expr: Box<WithPos<Expression>>,
    pub right_expr: Box<WithPos<Expression>>,
}

pub enum Range {
    Range(RangeConstraint),
    Attribute(Box<AttributeName>),
}

pub enum DiscreteRange {
    Discrete(WithPos<SelectedName>, Option<Range>),
    Range(Range),
}

pub enum SubtypeConstraint {
    Range(Range),
    Array(Vec<DiscreteRange>, Option<Box<WithPos<SubtypeConstraint>>>),
    Record(Vec<ElementConstraint>),
}

pub struct ElementConstraint {
    pub ident: Ident,
    pub constraint: Box<WithPos<SubtypeConstraint>>,
}

pub enum ResolutionIndication {
    FunctionName(WithPos<SelectedName>),
    ArrayElement(WithPos<SelectedName>),
    Unresolved,
}

pub struct SubtypeIndication {
    pub resolution: ResolutionIndication,
    pub type_mark: WithPos<SelectedName>,
    pub constraint: Option<WithPos<SubtypeConstraint>>,
}

// Declarations

pub enum ObjectClass {
    Signal,
    Constant,
    Variable,
    SharedVariable,
}

pub struct ObjectDeclaration {
    pub class: ObjectClass,
    pub ident: Ident,
    pub subtype_indication: SubtypeIndication,
    pub expression: Option<WithPos<Expression>>,
}

pub struct FileDeclaration {
    pub ident: Ident,
    pub subtype_indication: SubtypeIndication,
    pub file_name: Option<WithPos<Expression>>,
}

pub struct ElementDeclaration {
    pub ident: Ident,
    pub subtype: SubtypeIndication,
}

pub enum ArrayIndex {
    IndexSubtypeDefintion(WithPos<SelectedName>),
    Discrete(DiscreteRange),
}

pub enum ProtectedTypeDeclarativeItem {
    Subprogram(SubprogramDeclaration),
}

pub struct ProtectedTypeDeclaration {
    pub items: Vec<ProtectedTypeDeclarativeItem>,
}

pub struct ProtectedTypeBody {
    pub decl: Vec<Declaration>,
}

pub enum TypeDefinition {
    Enumeration(Vec<Ident>),
    Integer(Range),
    Array(Vec<ArrayIndex>, SubtypeIndication),
    Record(Vec<ElementDeclaration>),
    Access(SubtypeIndication),
    Incomplete,
    File(WithPos<SelectedName>),
    Protected(ProtectedTypeDeclaration),
    ProtectedBody(ProtectedTypeBody),
    Subtype(SubtypeIndication),
}

pub struct TypeDeclaration {
    pub ident: Ident,
    pub def: TypeDefinition,
}

pub struct ProcedureSpecification {
    pub designator: WithPos<Designator>,
    pub parameter_list: Vec<InterfaceDeclaration>,
}

pub struct FunctionSpecification {
    pub pure: bool,
    pub designator: WithPos<Designator>,
    pub parameter_list: Vec<InterfaceDeclaration>,
    pub return_type: WithPos<SelectedName>,
}

pub enum SubprogramDeclaration {
    Procedure(ProcedureSpecification),
    Function(FunctionSpecification),
}

pub struct SubprogramBody {
    pub specification: SubprogramDeclaration,
    pub declarations: Vec<Declaration>,
    pub statements: Vec<LabeledSequentialStatement>,
}

pub enum Mode {
    In,
    Out,
    InOut,
    Buffer,
    Linkage,
}

pub struct InterfaceObjectDeclaration {
    pub class: ObjectClass,
    pub ident: Ident,
    pub mode: Mode,
    pub subtype_indication: SubtypeIndication,
    pub expression: Option<WithPos<Expression>>,
}

pub struct InterfaceFileDeclaration {
    pub ident: Ident,
    pub subtype_indication: SubtypeIndication,
}

pub enum SubprogramDefault {
    Name(WithPos<SelectedName>),
    Box,
}

pub enum InterfaceDeclaration {
    Object(InterfaceObjectDeclaration),
    File(InterfaceFileDeclaration),
    Type(Ident),
    Subprogram(SubprogramDeclaration, Option<SubprogramDefault>),
}

pub struct AttributeDeclaration {
    pub ident: Ident,
    pub type_mark: WithPos<SelectedName>,
}

pub struct AttributeSpecification {
    pub ident: WithRef<Ident>,
    pub expr: WithPos<Expression>,
}

pub enum Attribute {
    Specification(AttributeSpecification),
    Declaration(AttributeDeclaration),
}

pub struct AliasDeclaration {
    pub designator: WithPos<Designator>,
    pub subtype_indication: Option<SubtypeIndication>,
    pub name: WithPos<Name>,
}

pub struct UseClause {
    pub name_list: Vec<WithPos<Name>>,
}

pub struct ComponentDeclaration {
    pub ident: Ident,
    pub generic_list: Vec<InterfaceDeclaration>,
    pub port_list: Vec<InterfaceDeclaration>,
}

pub enum Declaration {
    Object(ObjectDeclaration),
    File(FileDeclaration),
    Type(TypeDeclaration),
    Component(ComponentDeclaration),
    Attribute(Attribute),
    Alias(AliasDeclaration),
    SubprogramDeclaration(SubprogramDeclaration),
    SubprogramBody(SubprogramBody),
    Use(WithPos<UseClause>),
}

// Statements

pub struct Conditional<T> {
    pub condition: WithPos<Expression>,
    pub item: T,
}

pub struct Conditionals<T> {
    pub conditionals: Vec<Conditional<T>>,
    pub else_item: Option<T>,
}

pub struct Alternative<T> {
    pub choices: Vec<Choice>,
    pub item: T,
}

pub struct Selection<T> {
    pub expression: WithPos<Expression>,
    pub alternatives: Vec<Alternative<T>>,
}

pub enum Target {
    Name(Name),
    Aggregate(Vec<ElementAssociation>),
}

pub enum AssignmentRightHand {
    Simple(WithPos<Expression>),
    Conditional(Conditionals<WithPos<Expression>>),
    Selected(Selection<WithPos<Expression>>),
}

pub struct VariableAssignment {
    pub target: WithPos<Target>,
    pub rhs: AssignmentRightHand,
}

pub struct ReturnStatement {
    pub expression: Option<WithPos<Expression>>,
}

pub struct ReportStatement {
    pub report: WithPos<Expression>,
}

pub enum SequentialStatement {
    Report(ReportStatement),
    VariableAssignment(VariableAssignment),
    ProcedureCall(FunctionCall),
    Return(ReturnStatement),
    Null,
}

pub struct LabeledSequentialStatement {
    pub label: Option<Ident>,
    pub statement: SequentialStatement,
}

pub struct BlockStatement {
    pub decl: Vec<Declaration>,
    pub statements: Vec<LabeledConcurrentStatement>,
}

pub struct ProcessStatement {
    pub postponed: bool,
    pub decl: Vec<Declaration>,
    pub statements: Vec<LabeledSequentialStatement>,
}

pub struct GenerateBody {
    pub alternative_label: Option<Ident>,
    pub decl: Option<Vec<Declaration>>,
    pub statements: Vec<LabeledConcurrentStatement>,
}

pub struct ForGenerateStatement {
    pub index_name: Ident,
    pub discrete_range: DiscreteRange,
    pub body: GenerateBody,
}

pub type IfGenerateStatement = Conditionals<GenerateBody>;

pub type CaseGenerateStatement = Selection<GenerateBody>;

pub enum InstantiatedUnit {
    Component(WithPos<SelectedName>),
    Entity(WithPos<SelectedName>, Option<Ident>),
    Configuration(WithPos<SelectedName>),
}

pub struct InstantiationStatement {
    pub unit: InstantiatedUnit,
    pub generic_map: Vec<AssociationElement>,
    pub port_map: Vec<AssociationElement>,
}

pub enum ConcurrentStatement {
    ProcedureCall(FunctionCall),
    Block(BlockStatement),
    Process(ProcessStatement),
    Instance(InstantiationStatement),
    ForGenerate(ForGenerateStatement),
    IfGenerate(IfGenerateStatement),
    CaseGenerate(CaseGenerateStatement),
}

pub struct LabeledConcurrentStatement {
    pub label: Option<Ident>,
    pub statement: ConcurrentStatement,
}

// Design units

pub struct LibraryClause {
    pub name_list: Vec<Ident>,
}

pub struct ContextReference {
    pub name_list: Vec<WithPos<Name>>,
}

pub enum ContextItem {
    Use(UseClause),
    Library(LibraryClause),
    Context(ContextReference),
}

pub struct EntityDeclaration {
    pub ident: Ident,
    pub generic_clause: Option<Vec<InterfaceDeclaration>>,
    pub port_clause: Option<Vec<InterfaceDeclaration>>,
    pub decl: Vec<Declaration>,
    pub statements: Vec<LabeledConcurrentStatement>,
}

pub struct ArchitectureBody {
    pub ident: Ident,
    pub entity_name: WithRef<Ident>,
    pub decl: Vec<Declaration>,
    pub statements: Vec<LabeledConcurrentStatement>,
}

pub struct PackageDeclaration {
    pub ident: Ident,
    pub generic_clause: Option<Vec<InterfaceDeclaration>>,
    pub decl: Vec<Declaration>,
}

pub struct PackageBody {
    pub ident: WithRef<Ident>,
    pub decl: Vec<Declaration>,
}

pub struct PackageInstantiation {
    pub ident: Ident,
    pub package_name: WithPos<SelectedName>,
    pub generic_map: Option<Vec<AssociationElement>>,
}

pub struct ConfigurationDeclaration {
    pub ident: Ident,
    pub entity_name: WithPos<SelectedName>,
}

/// A library unit together with the context clause written before it.
pub struct DesignUnit<T> {
    pub context_clause: Vec<WithPos<ContextItem>>,
    pub unit: T,
}

pub type EntityUnit = DesignUnit<EntityDeclaration>;

pub type ArchitectureUnit = DesignUnit<ArchitectureBody>;

pub type PackageUnit = DesignUnit<PackageDeclaration>;

pub type PackageBodyUnit = DesignUnit<PackageBody>;

pub type PackageInstanceUnit = DesignUnit<PackageInstantiation>;

pub type ConfigurationUnit = DesignUnit<ConfigurationDeclaration>;

pub struct ContextDeclaration {
    pub ident: Ident,
    pub items: Vec<WithPos<ContextItem>>,
}

// The name of each design unit, and the file it was read from, which is the
// file its name was written in.

impl DesignUnit<EntityDeclaration> {
    pub fn ident(&self) -> (i: &Ident)
        ensures
            *i == self.unit.ident,
    {
        &self.unit.ident
    }

    pub fn source(&self) -> (s: &Source)
        ensures
            *s == self.unit.ident.pos.source,
    {
        &self.unit.ident.pos.source
    }
}

impl DesignUnit<ArchitectureBody> {
    pub fn ident(&self) -> (i: &Ident)
        ensures
            *i == self.unit.ident,
    {
        &self.unit.ident
    }

    pub fn source(&self) -> (s: &Source)
        ensures
            *s == self.unit.ident.pos.source,
    {
        &self.unit.ident.pos.source
    }
}

impl DesignUnit<PackageDeclaration> {
    pub fn ident(&self) -> (i: &Ident)
        ensures
            *i == self.unit.ident,
    {
        &self.unit.ident
    }

    pub fn source(&self) -> (s: &Source)
        ensures
            *s == self.unit.ident.pos.source,
    {
        &self.unit.ident.pos.source
    }
}

impl DesignUnit<PackageBody> {
    pub fn ident(&self) -> (i: &Ident)
        ensures
            *i == self.unit.ident.item,
    {
        &self.unit.ident.item
    }

    pub fn source(&self) -> (s: &Source)
        ensures
            *s == self.unit.ident.item.pos.source,
    {
        &self.unit.ident.item.pos.source
    }
}

impl DesignUnit<PackageInstantiation> {
    pub fn ident(&self) -> (i: &Ident)
        ensures
            *i == self.unit.ident,
    {
        &self.unit.ident
    }

    pub fn source(&self) -> (s: &Source)
        ensures
            *s == self.unit.ident.pos.source,
    {
        &self.unit.ident.pos.source
    }
}

impl DesignUnit<ConfigurationDeclaration> {
    pub fn ident(&self) -> (i: &Ident)
        ensures
            *i == self.unit.ident,
    {
        &self.unit.ident
    }

    pub fn source(&self) -> (s: &Source)
        ensures
            *s == self.unit.ident.pos.source,
    {
        &self.unit.ident.pos.source
    }
}

impl ContextDeclaration {
    pub fn ident(&self) -> (i: &Ident)
        ensures
            *i == self.ident,
    {
        &self.ident
    }

    pub fn source(&self) -> (s: &Source)
        ensures
            *s == self.ident.pos.source,
    {
        &self.ident.pos.source
    }
}

} // verus!
