//! The syntax tree of one statement, as a parser of the SQL grammar yields
//! it, reduced to what classification reads. A part that the grammar makes
//! optional, or that may be of another shape than the statement's kind
//! calls for, is kept as such: it is classification that rejects it.

use vstd::prelude::*;

verus! {

/// The kind of object that a comment, a grant, an owner change or a
/// definition is about.
#[derive(Debug, Clone, Copy, PartialEq, Eq, Structural)]
pub enum ObjectType {
    Column,
    Function,
    Schema,
    Type,
    Table,
    View,
    Aggregate,
    Operator,
    Sequence,
    Other,
}

/// The kind of a command of `ALTER TABLE`.
#[derive(Debug, Clone, Copy, PartialEq, Eq, Structural)]
pub enum AlterTableType {
    ColumnDefault,
    EnableRowSecurity,
    AddConstraint,
    ChangeOwner,
    Other,
}

/// The kind of a table constraint.
#[derive(Debug, Clone, Copy, PartialEq, Eq, Structural)]
pub enum ConstraintType {
    Foreign,
    Primary,
    Unique,
    Check,
    Exclusion,
    Other,
}

/// A relation named by its schema and its own name.
#[derive(Debug, PartialEq, Eq)]
pub struct Relation {
    pub schema: String,
    pub name: String,
}

/// The mathematical value of a [`Relation`].
pub struct RelationView {
    pub schema: Seq<char>,
    pub name: Seq<char>,
}

impl View for Relation {
    type V = RelationView;

    open spec fn view(&self) -> RelationView {
        RelationView { schema: self.schema@, name: self.name@ }
    }
}

impl DeepView for Relation {
    type V = RelationView;

    open spec fn deep_view(&self) -> RelationView {
        self@
    }
}

/// A node that names an object. In a list of name parts, a part is `Some`
/// where the node is a string and `None` where it is anything else.
#[derive(Debug, PartialEq, Eq)]
pub enum ObjectNode {
    /// No node.
    Absent,
    /// A string.
    Text(String),
    /// A plain list of nodes.
    List(Vec<Option<String>>),
    /// A routine or operator: the parts of its qualified name.
    ObjectWithArgs(Vec<Option<String>>),
    /// A type: the parts of its qualified name.
    TypeName(Vec<Option<String>>),
    /// A relation.
    Relation(Relation),
    /// A node of any other kind.
    Other,
}

/// The mathematical value of an [`ObjectNode`].
pub enum ObjectNodeView {
    Absent,
    Text(Seq<char>),
    List(Seq<Option<Seq<char>>>),
    ObjectWithArgs(Seq<Option<Seq<char>>>),
    TypeName(Seq<Option<Seq<char>>>),
    Relation(RelationView),
    Other,
}

impl View for ObjectNode {
    type V = ObjectNodeView;

    open spec fn view(&self) -> ObjectNodeView {
        match self {
            ObjectNode::Absent => ObjectNodeView::Absent,
            ObjectNode::Text(s) => ObjectNodeView::Text(s@),
            ObjectNode::List(items) => ObjectNodeView::List(items.deep_view()),
            ObjectNode::ObjectWithArgs(parts) => ObjectNodeView::ObjectWithArgs(parts.deep_view()),
            ObjectNode::TypeName(parts) => ObjectNodeView::TypeName(parts.deep_view()),
            ObjectNode::Relation(r) => ObjectNodeView::Relation(r@),
            ObjectNode::Other => ObjectNodeView::Other,
        }
    }
}

impl DeepView for ObjectNode {
    type V = ObjectNodeView;

    open spec fn deep_view(&self) -> ObjectNodeView {
        self@
    }
}

/// One entry of a statement's list of options.
#[derive(Debug, PartialEq, Eq)]
pub enum OptionNode {
    /// No node.
    Absent,
    /// A named option and its argument.
    DefElem { name: String, arg: ObjectNode },
    /// A node of any other kind.
    Other,
}

/// The mathematical value of an [`OptionNode`].
pub enum OptionNodeView {
    Absent,
    DefElem { name: Seq<char>, arg: ObjectNodeView },
    Other,
}

impl View for OptionNode {
    type V = OptionNodeView;

    open spec fn view(&self) -> OptionNodeView {
        match self {
            OptionNode::Absent => OptionNodeView::Absent,
            OptionNode::DefElem { name, arg } => OptionNodeView::DefElem {
                name: name@,
                arg: arg@,
            },
            OptionNode::Other => OptionNodeView::Other,
        }
    }
}

impl DeepView for OptionNode {
    type V = OptionNodeView;

    open spec fn deep_view(&self) -> OptionNodeView {
        self@
    }
}

/// What a command of `ALTER TABLE` defines.
#[derive(Debug, PartialEq, Eq)]
pub enum Definition {
    /// No node.
    Absent,
    /// A constraint: its kind, its name and, for a foreign key, the table
    /// it refers to.
    Constraint { contype: ConstraintType, name: String, target: Option<Relation> },
    /// A node of any other kind.
    Other,
}

/// The mathematical value of a [`Definition`].
pub enum DefinitionView {
    Absent,
    Constraint { contype: ConstraintType, name: Seq<char>, target: Option<RelationView> },
    Other,
}

impl View for Definition {
    type V = DefinitionView;

    open spec fn view(&self) -> DefinitionView {
        match self {
            Definition::Absent => DefinitionView::Absent,
            Definition::Constraint { contype, name, target } => DefinitionView::Constraint {
                contype: *contype,
                name: name@,
                target: target.deep_view(),
            },
            Definition::Other => DefinitionView::Other,
        }
    }
}

/// One entry of the command list of `ALTER TABLE`.
#[derive(Debug, PartialEq, Eq)]
pub enum TableCommand {
    /// No node.
    Absent,
    /// A command: its kind and what it defines.
    Command { subtype: AlterTableType, def: Definition },
    /// A node of any other kind.
    Other,
}

/// The mathematical value of a [`TableCommand`].
pub enum TableCommandView {
    Absent,
    Command { subtype: AlterTableType, def: DefinitionView },
    Other,
}

impl View for TableCommand {
    type V = TableCommandView;

    open spec fn view(&self) -> TableCommandView {
        match self {
            TableCommand::Absent => TableCommandView::Absent,
            TableCommand::Command { subtype, def } => TableCommandView::Command {
                subtype: *subtype,
                def: def@,
            },
            TableCommand::Other => TableCommandView::Other,
        }
    }
}

impl DeepView for TableCommand {
    type V = TableCommandView;

    open spec fn deep_view(&self) -> TableCommandView {
        self@
    }
}

/// The syntax tree of one statement.
#[derive(Debug, PartialEq, Eq)]
pub enum Statement {
    /// `CREATE SCHEMA`.
    CreateSchema { name: String },
    /// `COMMENT ON`: the kind of the object, the node that names it, and
    /// the comment.
    Comment { target: ObjectType, object: ObjectNode, comment: String },
    /// `CREATE TYPE .. AS ENUM`: the parts of the type's qualified name.
    CreateEnum { names: Vec<Option<String>> },
    /// `CREATE AGGREGATE`, `CREATE OPERATOR` and the like: the kind of the
    /// object and the parts of its qualified name.
    Define { kind: ObjectType, names: Vec<Option<String>> },
    /// `CREATE TYPE .. AS (..)`.
    CreateCompositeType { typevar: Option<Relation> },
    /// `CREATE VIEW`.
    CreateView { view: Option<Relation> },
    /// `CREATE POLICY`.
    CreatePolicy { name: String, table: Option<Relation> },
    /// `CREATE TABLE`.
    CreateTable { relation: Option<Relation> },
    /// `CREATE TRIGGER`: its name, its table, and the parts of the
    /// qualified name of the function it calls.
    CreateTrigger { name: String, relation: Option<Relation>, function: Vec<Option<String>> },
    /// `CREATE FUNCTION`: the parts of its qualified name, and those of the
    /// name of its return type.
    CreateFunction { names: Vec<Option<String>>, return_type: Option<Vec<Option<String>>> },
    /// `CREATE INDEX`.
    CreateIndex { name: String, relation: Option<Relation> },
    /// `ALTER TABLE`.
    AlterTable { relation: Option<Relation>, commands: Vec<TableCommand> },
    /// `SET` and `RESET`; `reset_all` for `RESET ALL`.
    VariableSet { reset_all: bool },
    /// A bare query.
    Select,
    /// `ALTER .. OWNER TO`: the kind of the object, and the relation or the
    /// node that names it.
    AlterOwner { target: ObjectType, relation: Option<Relation>, object: ObjectNode },
    /// `CREATE SEQUENCE`.
    CreateSequence { sequence: Option<Relation> },
    /// `ALTER SEQUENCE`.
    AlterSequence { sequence: Option<Relation>, options: Vec<OptionNode> },
    /// `GRANT` and `REVOKE`: the kind of the objects and the nodes that
    /// name them.
    Grant { target: ObjectType, objects: Vec<ObjectNode> },
    /// `ALTER DEFAULT PRIVILEGES`.
    AlterDefaultPrivileges { options: Vec<OptionNode> },
    /// A statement of any other kind.
    Other,
}

/// The mathematical value of a [`Statement`].
pub enum StatementView {
    CreateSchema { name: Seq<char> },
    Comment { target: ObjectType, object: ObjectNodeView, comment: Seq<char> },
    CreateEnum { names: Seq<Option<Seq<char>>> },
    Define { kind: ObjectType, names: Seq<Option<Seq<char>>> },
    CreateCompositeType { typevar: Option<RelationView> },
    CreateView { view: Option<RelationView> },
    CreatePolicy { name: Seq<char>, table: Option<RelationView> },
    CreateTable { relation: Option<RelationView> },
    CreateTrigger {
        name: Seq<char>,
        relation: Option<RelationView>,
        function: Seq<Option<Seq<char>>>,
    },
    CreateFunction {
        names: Seq<Option<Seq<char>>>,
        return_type: Option<Seq<Option<Seq<char>>>>,
    },
    CreateIndex { name: Seq<char>, relation: Option<RelationView> },
    AlterTable { relation: Option<RelationView>, commands: Seq<TableCommandView> },
    VariableSet { reset_all: bool },
    Select,
    AlterOwner { target: ObjectType, relation: Option<RelationView>, object: ObjectNodeView },
    CreateSequence { sequence: Option<RelationView> },
    AlterSequence { sequence: Option<RelationView>, options: Seq<OptionNodeView> },
    Grant { target: ObjectType, objects: Seq<ObjectNodeView> },
    AlterDefaultPrivileges { options: Seq<OptionNodeView> },
    Other,
}

impl View for Statement {
    type V = StatementView;

    open spec fn view(&self) -> StatementView {
        match self {
            Statement::CreateSchema { name } => StatementView::CreateSchema { name: name@ },
            Statement::Comment { target, object, comment } => StatementView::Comment {
                target: *target,
                object: object@,
                comment: comment@,
            },
            Statement::CreateEnum { names } => StatementView::CreateEnum {
                names: names.deep_view(),
            },
            Statement::Define { kind, names } => StatementView::Define {
                kind: *kind,
                names: names.deep_view(),
            },
            Statement::CreateCompositeType { typevar } => StatementView::CreateCompositeType {
                typevar: typevar.deep_view(),
            },
            Statement::CreateView { view } => StatementView::CreateView {
                view: view.deep_view(),
            },
            Statement::CreatePolicy { name, table } => StatementView::CreatePolicy {
                name: name@,
                table: table.deep_view(),
            },
            Statement::CreateTable { relation } => StatementView::CreateTable {
                relation: relation.deep_view(),
            },
            Statement::CreateTrigger { name, relation, function } => StatementView::CreateTrigger {
                name: name@,
                relation: relation.deep_view(),
                function: function.deep_view(),
            },
            Statement::CreateFunction { names, return_type } => StatementView::CreateFunction {
                names: names.deep_view(),
                return_type: return_type.deep_view(),
            },
            Statement::CreateIndex { name, relation } => StatementView::CreateIndex {
                name: name@,
                relation: relation.deep_view(),
            },
            Statement::AlterTable { relation, commands } => StatementView::AlterTable {
                relation: relation.deep_view(),
                commands: commands.deep_view(),
            },
            Statement::VariableSet { reset_all } => StatementView::VariableSet {
                reset_all: *reset_all,
            },
            Statement::Select => StatementView::Select,
            Statement::AlterOwner { target, relation, object } => StatementView::AlterOwner {
                target: *target,
                relation: relation.deep_view(),
                object: object@,
            },
            Statement::CreateSequence { sequence } => StatementView::CreateSequence {
                sequence: sequence.deep_view(),
            },
            Statement::AlterSequence { sequence, options } => StatementView::AlterSequence {
                sequence: sequence.deep_view(),
                options: options.deep_view(),
            },
            Statement::Grant { target, objects } => StatementView::Grant {
                target: *target,
                objects: objects.deep_view(),
            },
            Statement::AlterDefaultPrivileges { options } => StatementView::AlterDefaultPrivileges {
                options: options.deep_view(),
            },
            Statement::Other => StatementView::Other,
        }
    }
}

} // verus!
