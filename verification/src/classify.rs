//! Classification: from one statement, given as its text and its syntax
//! tree, and the catalog built so far, to the entity that the statement
//! adds to the catalog.

use vstd::prelude::*;
use vstd::view::View as _;
use crate::catalog::{
    relation_kind, resolve_relation, resolve_routine, resolve_type, routine_kind, type_kind, Kind,
};
use crate::constraints::{
    constraint_clauses, count_constraint_clauses, lemma_split_statement_has_one_clause,
    split_add_constraints, split_constraints,
};
use crate::error::SchemaError;
use crate::locations::{
    Aggregate, CompositeType, EnablePolicy, Entity, Enum, ForeignKey, Function, Index, Operator,
    Policy, Schema, Sequence, Setup, StatementLocation, Table, Trigger, TriggerFunction,
};
use crate::names::{
    defaulted_name, extract_names, names_of, qualified_or_public, qualified_pair, schema_and_name,
    validate_item_count,
};
use crate::syntax::{
    AlterTableType, ConstraintType, Definition, DefinitionView, ObjectNode, ObjectNodeView,
    ObjectType, OptionNode, OptionNodeView, Relation, RelationView, Statement, StatementView,
    TableCommand, TableCommandView,
};
use crate::text::{escape_quotes, escape_single_quotes, str_eq};

verus! {

/// What one statement adds to the catalog.
#[derive(Debug, PartialEq, Eq)]
pub enum Classification {
    /// One entity, to be appended.
    Entity(StatementLocation),
    /// Nothing: the statement is passed over.
    Nothing,
    /// The statement adds several constraints to a table. It is to be
    /// replaced by these statements, one for each constraint, each to be
    /// parsed and classified in this order.
    Split(Vec<String>),
}

/// The mathematical value of a [`Classification`].
pub enum Outcome {
    Entity(Entity),
    Nothing,
    Split(Seq<Seq<char>>),
}

impl vstd::view::View for Classification {
    type V = Outcome;

    open spec fn view(&self) -> Outcome {
        match self {
            Classification::Entity(e) => Outcome::Entity(e@),
            Classification::Nothing => Outcome::Nothing,
            Classification::Split(statements) => Outcome::Split(statements.deep_view()),
        }
    }
}

/// The mathematical value of what classification returns.
pub open spec fn outcome_of(r: Result<Classification, SchemaError>) -> Result<
    Outcome,
    SchemaError,
> {
    match r {
        Ok(c) => Ok(c@),
        Err(e) => Err(e),
    }
}

/// The outcome that is one entity.
pub open spec fn one(e: Entity) -> Result<Outcome, SchemaError> {
    Ok(Outcome::Entity(e))
}

/// The outcome of a statement whose syntax tree lacks a part or has one of
/// the wrong shape.
pub open spec fn malformed() -> Result<Outcome, SchemaError> {
    Err(SchemaError::MalformedStatement)
}

/// The outcome of a statement outside the closed set.
pub open spec fn unsupported() -> Result<Outcome, SchemaError> {
    Err(SchemaError::UnsupportedStatementKind)
}

/// The entity of kind `kind` about `schema`.`name` with the text `sql`.
pub open spec fn entity_of(kind: Kind, schema: Seq<char>, name: Seq<char>, sql: Seq<char>) -> Entity {
    match kind {
        Kind::Table => Entity::Table { schema, name, sql },
        Kind::View => Entity::View { schema, name, sql },
        Kind::Enum => Entity::Enum { schema, name, sql },
        Kind::CompositeType => Entity::CompositeType { schema, name, sql },
        Kind::TriggerFunction => Entity::TriggerFunction { schema, name, sql },
        Kind::Function => Entity::Function { schema, name, sql },
        Kind::Aggregate => Entity::Aggregate { schema, name, sql },
    }
}

/// The outcome of a statement that refers to `schema`.`name`: an entity of
/// the kind under which the catalog knows the object, and a failure where
/// it knows none.
pub open spec fn referring(
    kind: Option<Kind>,
    schema: Seq<char>,
    name: Seq<char>,
    sql: Seq<char>,
) -> Result<Outcome, SchemaError> {
    match kind {
        Some(k) => one(entity_of(k, schema, name, sql)),
        None => Err(SchemaError::UnresolvedReference),
    }
}

/// The comment on a column, written out anew.
pub open spec fn comment_on_column(
    schema: Seq<char>,
    table: Seq<char>,
    column: Seq<char>,
    comment: Seq<char>,
) -> Seq<char> {
    "COMMENT ON COLUMN \""@ + schema + "\".\""@ + table + "\".\""@ + column + "\" IS E'"@
        + escape_quotes(comment) + "';"@
}

/// The comment on an object that two names place, written out anew with
/// the comment as an escape string. `opening` runs up to the first quote.
pub open spec fn comment_escaped(
    opening: Seq<char>,
    schema: Seq<char>,
    name: Seq<char>,
    comment: Seq<char>,
) -> Seq<char> {
    opening + schema + "\".\""@ + name + "\" IS E'"@ + escape_quotes(comment) + "';"@
}

/// The comment on a table or view, written out anew with the comment as it
/// is. `opening` runs up to the first quote.
pub open spec fn comment_plain(
    opening: Seq<char>,
    schema: Seq<char>,
    name: Seq<char>,
    comment: Seq<char>,
) -> Seq<char> {
    opening + schema + "\".\""@ + name + "\" IS '"@ + comment + "';"@
}

/// The comment on a schema, written out anew.
pub open spec fn comment_on_schema(name: Seq<char>, comment: Seq<char>) -> Seq<char> {
    "COMMENT ON SCHEMA \""@ + name + "\" IS E'"@ + escape_quotes(comment) + "';"@
}

/// What a comment adds to the catalog.
pub open spec fn comment_outcome(
    target: ObjectType,
    object: ObjectNodeView,
    comment: Seq<char>,
    catalog: Seq<Entity>,
) -> Result<Outcome, SchemaError> {
    match target {
        ObjectType::Column => match object {
            ObjectNodeView::List(items) => match names_of(items) {
                Some(names) => if names.len() == 3 {
                    referring(
                        relation_kind(catalog, names[0], names[1]),
                        names[0],
                        names[1],
                        comment_on_column(names[0], names[1], names[2], comment),
                    )
                } else {
                    malformed()
                },
                None => malformed(),
            },
            _ => malformed(),
        },
        ObjectType::Function => match object {
            ObjectNodeView::ObjectWithArgs(parts) => match schema_and_name(parts) {
                Some((schema, name)) => referring(
                    routine_kind(catalog, schema, name),
                    schema,
                    name,
                    comment_escaped("COMMENT ON FUNCTION \""@, schema, name, comment),
                ),
                None => malformed(),
            },
            _ => malformed(),
        },
        ObjectType::Schema => match object {
            ObjectNodeView::Text(name) => one(
                Entity::Schema { name, sql: comment_on_schema(name, comment) },
            ),
            _ => malformed(),
        },
        ObjectType::Type => match object {
            ObjectNodeView::TypeName(parts) => match schema_and_name(parts) {
                Some((schema, name)) => referring(
                    type_kind(catalog, schema, name),
                    schema,
                    name,
                    comment_escaped("COMMENT ON TYPE \""@, schema, name, comment),
                ),
                None => malformed(),
            },
            _ => malformed(),
        },
        ObjectType::Table | ObjectType::View => match object {
            ObjectNodeView::List(items) => match schema_and_name(items) {
                Some((schema, name)) => match relation_kind(catalog, schema, name) {
                    Some(Kind::Table) => one(
                        Entity::Table {
                            schema,
                            name,
                            sql: comment_plain("COMMENT ON TABLE \""@, schema, name, comment),
                        },
                    ),
                    Some(_) => one(
                        Entity::View {
                            schema,
                            name,
                            sql: comment_plain("COMMENT ON VIEW \""@, schema, name, comment),
                        },
                    ),
                    None => Err(SchemaError::UnresolvedReference),
                },
                None => malformed(),
            },
            _ => malformed(),
        },
        _ => unsupported(),
    }
}

/// What the definition of an aggregate or an operator adds to the catalog.
pub open spec fn define_outcome(sql: Seq<char>, kind: ObjectType, names: Seq<Option<Seq<char>>>) -> Result<
    Outcome,
    SchemaError,
> {
    match kind {
        ObjectType::Aggregate => match defaulted_name(names) {
            Some((schema, name)) => one(Entity::Aggregate { schema, name, sql }),
            None => malformed(),
        },
        ObjectType::Operator => match defaulted_name(names) {
            Some((schema, name)) => one(Entity::Operator { schema, name, sql }),
            None => malformed(),
        },
        _ => unsupported(),
    }
}

/// Whether the name of a return type says `trigger`. The parts are read
/// from `from` on and up to the first that says so; `None` where one of
/// those read is no string.
pub open spec fn returns_trigger(ty: Seq<Option<Seq<char>>>, from: int) -> Option<bool>
    decreases ty.len() - from,
{
    if from < 0 || from >= ty.len() {
        Some(false)
    } else {
        match ty[from] {
            None => None,
            Some(part) => if part == "trigger"@ {
                Some(true)
            } else {
                returns_trigger(ty, from + 1)
            },
        }
    }
}

/// What the creation of a function adds to the catalog.
pub open spec fn function_outcome(
    sql: Seq<char>,
    names: Seq<Option<Seq<char>>>,
    return_type: Option<Seq<Option<Seq<char>>>>,
) -> Result<Outcome, SchemaError> {
    match (defaulted_name(names), return_type) {
        (Some((schema, name)), Some(ty)) => match returns_trigger(ty, 0) {
            Some(true) => one(Entity::TriggerFunction { schema, name, sql }),
            Some(false) => one(Entity::Function { schema, name, sql }),
            None => malformed(),
        },
        _ => malformed(),
    }
}

/// What the addition of one constraint to the table `table` adds to the
/// catalog.
pub open spec fn constraint_outcome(sql: Seq<char>, table: RelationView, def: DefinitionView) -> Result<
    Outcome,
    SchemaError,
> {
    match def {
        DefinitionView::Constraint { contype, name, target } => match contype {
            ConstraintType::Foreign => match target {
                Some(t) => one(
                    Entity::ForeignKey {
                        constraint_name: name,
                        source_schema: table.schema,
                        source_table: table.name,
                        target_schema: t.schema,
                        target_table: t.name,
                        sql,
                    },
                ),
                None => malformed(),
            },
            ConstraintType::Other => unsupported(),
            _ => one(Entity::Table { schema: table.schema, name: table.name, sql }),
        },
        _ => malformed(),
    }
}

/// What an `ALTER TABLE` statement adds to the catalog. Its first command
/// decides.
pub open spec fn alter_table_outcome(
    sql: Seq<char>,
    relation: Option<RelationView>,
    commands: Seq<TableCommandView>,
) -> Result<Outcome, SchemaError> {
    match relation {
        Some(table) => if commands.len() == 0 {
            malformed()
        } else {
            match commands[0] {
                TableCommandView::Absent => malformed(),
                TableCommandView::Other => unsupported(),
                TableCommandView::Command { subtype, def } => match subtype {
                    AlterTableType::ColumnDefault => one(
                        Entity::Table { schema: table.schema, name: table.name, sql },
                    ),
                    AlterTableType::EnableRowSecurity => one(
                        Entity::EnablePolicy { schema: table.schema, table: table.name, sql },
                    ),
                    AlterTableType::AddConstraint => if constraint_clauses(sql) > 1 {
                        match split_constraints(sql) {
                            Some(statements) => Ok(Outcome::Split(statements)),
                            None => malformed(),
                        }
                    } else {
                        constraint_outcome(sql, table, def)
                    },
                    AlterTableType::ChangeOwner => Ok(Outcome::Nothing),
                    AlterTableType::Other => unsupported(),
                },
            }
        },
        None => malformed(),
    }
}

/// What an owner change adds to the catalog.
pub open spec fn owner_outcome(
    sql: Seq<char>,
    target: ObjectType,
    relation: Option<RelationView>,
    object: ObjectNodeView,
    catalog: Seq<Entity>,
) -> Result<Outcome, SchemaError> {
    match target {
        ObjectType::Schema => match object {
            ObjectNodeView::Text(name) => one(Entity::Schema { name, sql }),
            _ => malformed(),
        },
        ObjectType::Aggregate => match object {
            ObjectNodeView::ObjectWithArgs(parts) => match defaulted_name(parts) {
                Some((schema, name)) => one(Entity::Aggregate { schema, name, sql }),
                None => malformed(),
            },
            _ => malformed(),
        },
        ObjectType::Operator => match object {
            ObjectNodeView::ObjectWithArgs(parts) => match defaulted_name(parts) {
                Some((schema, name)) => one(Entity::Operator { schema, name, sql }),
                None => malformed(),
            },
            _ => malformed(),
        },
        ObjectType::Function => match object {
            ObjectNodeView::ObjectWithArgs(parts) => match schema_and_name(parts) {
                Some((schema, name)) => referring(
                    routine_kind(catalog, schema, name),
                    schema,
                    name,
                    sql,
                ),
                None => malformed(),
            },
            _ => malformed(),
        },
        ObjectType::Type => match object {
            ObjectNodeView::List(items) => match schema_and_name(items) {
                Some((schema, name)) => referring(
                    type_kind(catalog, schema, name),
                    schema,
                    name,
                    sql,
                ),
                None => malformed(),
            },
            _ => malformed(),
        },
        ObjectType::Table | ObjectType::View => match relation {
            Some(r) => referring(relation_kind(catalog, r.schema, r.name), r.schema, r.name, sql),
            None => malformed(),
        },
        _ => unsupported(),
    }
}

/// The argument of the first option called `name` at or after `from`:
/// `Ok(None)` where there is no such option, and a failure where an entry
/// that is read on the way is absent.
pub open spec fn option_named(options: Seq<OptionNodeView>, name: Seq<char>, from: int) -> Result<
    Option<ObjectNodeView>,
    SchemaError,
>
    decreases options.len() - from,
{
    if from < 0 || from >= options.len() {
        Ok(None)
    } else {
        match options[from] {
            OptionNodeView::Absent => Err(SchemaError::MalformedStatement),
            OptionNodeView::DefElem { name: n, arg } => if n == name {
                Ok(Some(arg))
            } else {
                option_named(options, name, from + 1)
            },
            OptionNodeView::Other => option_named(options, name, from + 1),
        }
    }
}

/// What an `ALTER SEQUENCE` statement adds to the catalog: the sequence
/// with the table that owns it, which the option `owned_by` names by
/// schema, table and column.
pub open spec fn alter_sequence_outcome(
    sql: Seq<char>,
    sequence: Option<RelationView>,
    options: Seq<OptionNodeView>,
) -> Result<Outcome, SchemaError> {
    match sequence {
        Some(seq) => match option_named(options, "owned_by"@, 0) {
            Ok(Some(ObjectNodeView::List(items))) => match names_of(items) {
                Some(names) => if names.len() == 3 && names[0] == seq.schema {
                    one(
                        Entity::Sequence {
                            table: Some(names[1]),
                            schema: seq.schema,
                            name: seq.name,
                            sql,
                        },
                    )
                } else {
                    malformed()
                },
                None => malformed(),
            },
            Ok(Some(_)) => malformed(),
            Ok(None) => unsupported(),
            Err(e) => Err(e),
        },
        None => malformed(),
    }
}

/// What a grant adds to the catalog. The first of its objects decides.
pub open spec fn grant_outcome(
    sql: Seq<char>,
    target: ObjectType,
    objects: Seq<ObjectNodeView>,
    catalog: Seq<Entity>,
) -> Result<Outcome, SchemaError> {
    let object = if objects.len() > 0 {
        objects[0]
    } else {
        ObjectNodeView::Absent
    };
    match target {
        ObjectType::Schema => match object {
            ObjectNodeView::Text(name) => one(Entity::Schema { name, sql }),
            _ => malformed(),
        },
        ObjectType::Table | ObjectType::View => match object {
            ObjectNodeView::Relation(r) => referring(
                relation_kind(catalog, r.schema, r.name),
                r.schema,
                r.name,
                sql,
            ),
            _ => malformed(),
        },
        ObjectType::Sequence => match object {
            ObjectNodeView::Relation(r) => one(
                Entity::Sequence { table: None, schema: r.schema, name: r.name, sql },
            ),
            _ => malformed(),
        },
        ObjectType::Function => match object {
            ObjectNodeView::ObjectWithArgs(parts) => match schema_and_name(parts) {
                Some((schema, name)) => referring(
                    routine_kind(catalog, schema, name),
                    schema,
                    name,
                    sql,
                ),
                None => malformed(),
            },
            _ => malformed(),
        },
        _ => unsupported(),
    }
}

/// What an `ALTER DEFAULT PRIVILEGES` statement adds to the catalog: its
/// text, under the first schema that the option `schemas` lists.
pub open spec fn default_privileges_outcome(sql: Seq<char>, options: Seq<OptionNodeView>) -> Result<
    Outcome,
    SchemaError,
> {
    match option_named(options, "schemas"@, 0) {
        Ok(Some(ObjectNodeView::List(items))) => if items.len() > 0 && items[0] is Some {
            one(Entity::Schema { name: items[0]->0, sql })
        } else {
            malformed()
        },
        _ => malformed(),
    }
}

/// The entity that is filed with a relation, from the relation that a
/// statement is about.
pub open spec fn about(
    relation: Option<RelationView>,
    make: spec_fn(RelationView) -> Entity,
) -> Result<Outcome, SchemaError> {
    match relation {
        Some(r) => one(make(r)),
        None => malformed(),
    }
}

/// What the statement `stmt`, whose text is `sql`, adds to the catalog
/// `catalog` of the statements before it.
pub open spec fn classification(sql: Seq<char>, stmt: StatementView, catalog: Seq<Entity>) -> Result<
    Outcome,
    SchemaError,
> {
    match stmt {
        StatementView::CreateSchema { name } => one(Entity::Schema { name, sql }),
        StatementView::Comment { target, object, comment } => comment_outcome(
            target,
            object,
            comment,
            catalog,
        ),
        StatementView::CreateEnum { names } => match defaulted_name(names) {
            Some((schema, name)) => one(Entity::Enum { schema, name, sql }),
            None => malformed(),
        },
        StatementView::Define { kind, names } => define_outcome(sql, kind, names),
        StatementView::CreateCompositeType { typevar } => about(
            typevar,
            |r: RelationView| Entity::CompositeType { schema: r.schema, name: r.name, sql },
        ),
        StatementView::CreateView { view } => about(
            view,
            |r: RelationView| Entity::View { schema: r.schema, name: r.name, sql },
        ),
        StatementView::CreatePolicy { name, table } => about(
            table,
            |r: RelationView| Entity::Policy { schema: r.schema, name, table: r.name, sql },
        ),
        StatementView::CreateTable { relation } => about(
            relation,
            |r: RelationView| Entity::Table { schema: r.schema, name: r.name, sql },
        ),
        StatementView::CreateTrigger { name, relation, function } => match (
            relation,
            defaulted_name(function),
        ) {
            (Some(r), Some((_, called))) => one(
                Entity::Trigger {
                    schema: r.schema,
                    name,
                    table: r.name,
                    function: called,
                    sql,
                },
            ),
            _ => malformed(),
        },
        StatementView::CreateFunction { names, return_type } => function_outcome(
            sql,
            names,
            return_type,
        ),
        StatementView::CreateIndex { name, relation } => about(
            relation,
            |r: RelationView| Entity::Index { schema: r.schema, name, table: r.name, sql },
        ),
        StatementView::AlterTable { relation, commands } => alter_table_outcome(
            sql,
            relation,
            commands,
        ),
        StatementView::VariableSet { reset_all } => if reset_all {
            Ok(Outcome::Nothing)
        } else {
            one(Entity::Setup { sql })
        },
        StatementView::Select => one(Entity::Setup { sql }),
        StatementView::AlterOwner { target, relation, object } => owner_outcome(
            sql,
            target,
            relation,
            object,
            catalog,
        ),
        StatementView::CreateSequence { sequence } => about(
            sequence,
            |r: RelationView| Entity::Sequence { table: None, schema: r.schema, name: r.name, sql },
        ),
        StatementView::AlterSequence { sequence, options } => alter_sequence_outcome(
            sql,
            sequence,
            options,
        ),
        StatementView::Grant { target, objects } => grant_outcome(sql, target, objects, catalog),
        StatementView::AlterDefaultPrivileges { options } => default_privileges_outcome(
            sql,
            options,
        ),
        StatementView::Other => unsupported(),
    }
}

/// The entity of kind `kind` about `schema`.`name` with the text `sql`.
fn make_entity(kind: Kind, schema: String, name: String, sql: String) -> (r: StatementLocation)
    ensures
        r@ == entity_of(kind, schema@, name@, sql@),
{
    match kind {
        Kind::Table => StatementLocation::Table(Table { schema, name, sql }),
        Kind::View => StatementLocation::View(crate::locations::View { schema, name, sql }),
        Kind::Enum => StatementLocation::EnumNode(Enum { schema, name, sql }),
        Kind::CompositeType => StatementLocation::CompositeType(
            CompositeType { schema, name, sql },
        ),
        Kind::TriggerFunction => StatementLocation::TriggerFunction(
            TriggerFunction { schema, name, sql },
        ),
        Kind::Function => StatementLocation::Function(Function { schema, name, sql }),
        Kind::Aggregate => StatementLocation::Aggregate(Aggregate { schema, name, sql }),
    }
}

/// The outcome of a statement that refers to `schema`.`name`.
fn refer(kind: Option<Kind>, schema: String, name: String, sql: String) -> (r: Result<
    Classification,
    SchemaError,
>)
    ensures
        outcome_of(r) == referring(kind, schema@, name@, sql@),
{
    match kind {
        Some(k) => Ok(Classification::Entity(make_entity(k, schema, name, sql))),
        None => Err(SchemaError::UnresolvedReference),
    }
}

/// The comment on a column, written out anew.
fn render_column_comment(schema: &str, table: &str, column: &str, comment: &str) -> (r: String)
    ensures
        r@ == comment_on_column(schema@, table@, column@, comment@),
{
    let mut text = String::from_str("COMMENT ON COLUMN \"");
    text.append(schema);
    text.append("\".\"");
    text.append(table);
    text.append("\".\"");
    text.append(column);
    text.append("\" IS E'");
    text.append(escape_single_quotes(comment).as_str());
    text.append("';");
    text
}

/// The comment on an object that two names place, written out anew with
/// the comment as an escape string.
fn render_comment_escaped(opening: &str, schema: &str, name: &str, comment: &str) -> (r: String)
    ensures
        r@ == comment_escaped(opening@, schema@, name@, comment@),
{
    let mut text = String::from_str(opening);
    text.append(schema);
    text.append("\".\"");
    text.append(name);
    text.append("\" IS E'");
    text.append(escape_single_quotes(comment).as_str());
    text.append("';");
    text
}

/// The comment on a table or view, written out anew with the comment as
/// it is.
fn render_comment_plain(opening: &str, schema: &str, name: &str, comment: &str) -> (r: String)
    ensures
        r@ == comment_plain(opening@, schema@, name@, comment@),
{
    let mut text = String::from_str(opening);
    text.append(schema);
    text.append("\".\"");
    text.append(name);
    text.append("\" IS '");
    text.append(comment);
    text.append("';");
    text
}

/// The comment on a schema, written out anew.
fn render_schema_comment(name: &str, comment: &str) -> (r: String)
    ensures
        r@ == comment_on_schema(name@, comment@),
{
    let mut text = String::from_str("COMMENT ON SCHEMA \"");
    text.append(name);
    text.append("\" IS E'");
    text.append(escape_single_quotes(comment).as_str());
    text.append("';");
    text
}

/// What a comment adds to the catalog.
fn classify_comment(
    target: ObjectType,
    object: &ObjectNode,
    comment: &str,
    nodes: &[StatementLocation],
) -> (r: Result<Classification, SchemaError>)
    ensures
        outcome_of(r) == comment_outcome(target, object@, comment@, nodes.deep_view()),
{
    match target {
        ObjectType::Column => match object {
            ObjectNode::List(items) => {
                let names = extract_names(items)?;
                validate_item_count(names.as_slice(), 3)?;
                let kind = resolve_relation(nodes, names[0].as_str(), names[1].as_str());
                let text = render_column_comment(
                    names[0].as_str(),
                    names[1].as_str(),
                    names[2].as_str(),
                    comment,
                );
                refer(kind, names[0].clone(), names[1].clone(), text)
            },
            _ => Err(SchemaError::MalformedStatement),
        },
        ObjectType::Function => match object {
            ObjectNode::ObjectWithArgs(parts) => {
                let (schema, name) = qualified_pair(parts)?;
                let kind = resolve_routine(nodes, schema.as_str(), name.as_str());
                let text = render_comment_escaped(
                    "COMMENT ON FUNCTION \"",
                    schema.as_str(),
                    name.as_str(),
                    comment,
                );
                refer(kind, schema, name, text)
            },
            _ => Err(SchemaError::MalformedStatement),
        },
        ObjectType::Schema => match object {
            ObjectNode::Text(name) => {
                let text = render_schema_comment(name.as_str(), comment);
                Ok(
                    Classification::Entity(
                        StatementLocation::Schema(Schema { name: name.clone(), sql: text }),
                    ),
                )
            },
            _ => Err(SchemaError::MalformedStatement),
        },
        ObjectType::Type => match object {
            ObjectNode::TypeName(parts) => {
                let (schema, name) = qualified_pair(parts)?;
                let kind = resolve_type(nodes, schema.as_str(), name.as_str());
                let text = render_comment_escaped(
                    "COMMENT ON TYPE \"",
                    schema.as_str(),
                    name.as_str(),
                    comment,
                );
                refer(kind, schema, name, text)
            },
            _ => Err(SchemaError::MalformedStatement),
        },
        ObjectType::Table | ObjectType::View => match object {
            ObjectNode::List(items) => {
                let (schema, name) = qualified_pair(items)?;
                match resolve_relation(nodes, schema.as_str(), name.as_str()) {
                    Some(Kind::Table) => {
                        let text = render_comment_plain(
                            "COMMENT ON TABLE \"",
                            schema.as_str(),
                            name.as_str(),
                            comment,
                        );
                        Ok(
                            Classification::Entity(
                                StatementLocation::Table(Table { schema, name, sql: text }),
                            ),
                        )
                    },
                    Some(_) => {
                        let text = render_comment_plain(
                            "COMMENT ON VIEW \"",
                            schema.as_str(),
                            name.as_str(),
                            comment,
                        );
                        Ok(
                            Classification::Entity(
                                StatementLocation::View(
                                    crate::locations::View { schema, name, sql: text },
                                ),
                            ),
                        )
                    },
                    None => Err(SchemaError::UnresolvedReference),
                }
            },
            _ => Err(SchemaError::MalformedStatement),
        },
        _ => Err(SchemaError::UnsupportedStatementKind),
    }
}

/// What the definition of an aggregate or an operator adds to the catalog.
fn classify_define(sql: &str, kind: ObjectType, names: &Vec<Option<String>>) -> (r: Result<
    Classification,
    SchemaError,
>)
    ensures
        outcome_of(r) == define_outcome(sql@, kind, names.deep_view()),
{
    match kind {
        ObjectType::Aggregate => {
            let (schema, name) = qualified_or_public(names)?;
            Ok(
                Classification::Entity(
                    StatementLocation::Aggregate(
                        Aggregate { schema, name, sql: String::from_str(sql) },
                    ),
                ),
            )
        },
        ObjectType::Operator => {
            let (schema, name) = qualified_or_public(names)?;
            Ok(
                Classification::Entity(
                    StatementLocation::Operator(
                        Operator { schema, name, sql: String::from_str(sql) },
                    ),
                ),
            )
        },
        _ => Err(SchemaError::UnsupportedStatementKind),
    }
}

/// Whether the name of a return type says `trigger`.
fn is_trigger_type(ty: &Vec<Option<String>>) -> (r: Result<bool, SchemaError>)
    ensures
        match r {
            Ok(b) => returns_trigger(ty.deep_view(), 0) == Some(b),
            Err(e) => e == SchemaError::MalformedStatement && returns_trigger(ty.deep_view(), 0)
                is None,
        },
{
    let ghost parts = ty.deep_view();
    let mut i: usize = 0;
    while i < ty.len()
        invariant
            i <= ty.len(),
            parts == ty.deep_view(),
            returns_trigger(parts, 0) == returns_trigger(parts, i as int),
        decreases ty.len() - i,
    {
        assert(parts[i as int] == ty[i as int].deep_view());
        match &ty[i] {
            Some(part) => {
                if str_eq(part.as_str(), "trigger") {
                    return Ok(true);
                }
            },
            None => {
                return Err(SchemaError::MalformedStatement);
            },
        }
        i += 1;
    }
    Ok(false)
}

/// What the creation of a function adds to the catalog.
fn classify_function(
    sql: &str,
    names: &Vec<Option<String>>,
    return_type: &Option<Vec<Option<String>>>,
) -> (r: Result<Classification, SchemaError>)
    ensures
        outcome_of(r) == function_outcome(sql@, names.deep_view(), return_type.deep_view()),
{
    let (schema, name) = qualified_or_public(names)?;
    match return_type {
        Some(ty) => {
            if is_trigger_type(ty)? {
                Ok(
                    Classification::Entity(
                        StatementLocation::TriggerFunction(
                            TriggerFunction { schema, name, sql: String::from_str(sql) },
                        ),
                    ),
                )
            } else {
                Ok(
                    Classification::Entity(
                        StatementLocation::Function(
                            Function { schema, name, sql: String::from_str(sql) },
                        ),
                    ),
                )
            }
        },
        None => Err(SchemaError::MalformedStatement),
    }
}

/// What the addition of one constraint to the table `table` adds to the
/// catalog.
fn classify_constraint(sql: &str, table: &Relation, def: &Definition) -> (r: Result<
    Classification,
    SchemaError,
>)
    ensures
        outcome_of(r) == constraint_outcome(sql@, table@, def@),
{
    match def {
        Definition::Constraint { contype, name, target } => match contype {
            ConstraintType::Foreign => match target {
                Some(t) => Ok(
                    Classification::Entity(
                        StatementLocation::ForeignKey(
                            ForeignKey {
                                constraint_name: name.clone(),
                                source_schema: table.schema.clone(),
                                source_table: table.name.clone(),
                                target_schema: t.schema.clone(),
                                target_table: t.name.clone(),
                                sql: String::from_str(sql),
                            },
                        ),
                    ),
                ),
                None => Err(SchemaError::MalformedStatement),
            },
            ConstraintType::Other => Err(SchemaError::UnsupportedStatementKind),
            _ => Ok(
                Classification::Entity(
                    StatementLocation::Table(
                        Table {
                            schema: table.schema.clone(),
                            name: table.name.clone(),
                            sql: String::from_str(sql),
                        },
                    ),
                ),
            ),
        },
        _ => Err(SchemaError::MalformedStatement),
    }
}

/// What an `ALTER TABLE` statement adds to the catalog.
fn classify_alter_table(sql: &str, relation: &Option<Relation>, commands: &Vec<TableCommand>) -> (r:
    Result<Classification, SchemaError>)
    ensures
        outcome_of(r) == alter_table_outcome(sql@, relation.deep_view(), commands.deep_view()),
{
    let table = match relation {
        Some(table) => table,
        None => {
            return Err(SchemaError::MalformedStatement);
        },
    };
    if commands.len() == 0 {
        return Err(SchemaError::MalformedStatement);
    }
    assert(commands.deep_view()[0] == commands[0]@);
    match &commands[0] {
        TableCommand::Absent => Err(SchemaError::MalformedStatement),
        TableCommand::Other => Err(SchemaError::UnsupportedStatementKind),
        TableCommand::Command { subtype, def } => match subtype {
            AlterTableType::ColumnDefault => Ok(
                Classification::Entity(
                    StatementLocation::Table(
                        Table {
                            schema: table.schema.clone(),
                            name: table.name.clone(),
                            sql: String::from_str(sql),
                        },
                    ),
                ),
            ),
            AlterTableType::EnableRowSecurity => Ok(
                Classification::Entity(
                    StatementLocation::EnablePolicy(
                        EnablePolicy {
                            schema: table.schema.clone(),
                            table: table.name.clone(),
                            sql: String::from_str(sql),
                        },
                    ),
                ),
            ),
            AlterTableType::AddConstraint => {
                if count_constraint_clauses(sql) > 1 {
                    match split_add_constraints(sql) {
                        Some(statements) => Ok(Classification::Split(statements)),
                        None => Err(SchemaError::MalformedStatement),
                    }
                } else {
                    classify_constraint(sql, table, def)
                }
            },
            AlterTableType::ChangeOwner => Ok(Classification::Nothing),
            AlterTableType::Other => Err(SchemaError::UnsupportedStatementKind),
        },
    }
}

/// What an owner change adds to the catalog.
fn classify_owner(
    sql: &str,
    target: ObjectType,
    relation: &Option<Relation>,
    object: &ObjectNode,
    nodes: &[StatementLocation],
) -> (r: Result<Classification, SchemaError>)
    ensures
        outcome_of(r) == owner_outcome(
            sql@,
            target,
            relation.deep_view(),
            object@,
            nodes.deep_view(),
        ),
{
    match target {
        ObjectType::Schema => match object {
            ObjectNode::Text(name) => Ok(
                Classification::Entity(
                    StatementLocation::Schema(
                        Schema { name: name.clone(), sql: String::from_str(sql) },
                    ),
                ),
            ),
            _ => Err(SchemaError::MalformedStatement),
        },
        ObjectType::Aggregate => match object {
            ObjectNode::ObjectWithArgs(parts) => {
                let (schema, name) = qualified_or_public(parts)?;
                Ok(
                    Classification::Entity(
                        StatementLocation::Aggregate(
                            Aggregate { schema, name, sql: String::from_str(sql) },
                        ),
                    ),
                )
            },
            _ => Err(SchemaError::MalformedStatement),
        },
        ObjectType::Operator => match object {
            ObjectNode::ObjectWithArgs(parts) => {
                let (schema, name) = qualified_or_public(parts)?;
                Ok(
                    Classification::Entity(
                        StatementLocation::Operator(
                            Operator { schema, name, sql: String::from_str(sql) },
                        ),
                    ),
                )
            },
            _ => Err(SchemaError::MalformedStatement),
        },
        ObjectType::Function => match object {
            ObjectNode::ObjectWithArgs(parts) => {
                let (schema, name) = qualified_pair(parts)?;
                let kind = resolve_routine(nodes, schema.as_str(), name.as_str());
                refer(kind, schema, name, String::from_str(sql))
            },
            _ => Err(SchemaError::MalformedStatement),
        },
        ObjectType::Type => match object {
            ObjectNode::List(items) => {
                let (schema, name) = qualified_pair(items)?;
                let kind = resolve_type(nodes, schema.as_str(), name.as_str());
                refer(kind, schema, name, String::from_str(sql))
            },
            _ => Err(SchemaError::MalformedStatement),
        },
        ObjectType::Table | ObjectType::View => match relation {
            Some(r) => {
                let kind = resolve_relation(nodes, r.schema.as_str(), r.name.as_str());
                refer(kind, r.schema.clone(), r.name.clone(), String::from_str(sql))
            },
            None => Err(SchemaError::MalformedStatement),
        },
        _ => Err(SchemaError::UnsupportedStatementKind),
    }
}

/// The argument of the first option called `name`.
fn find_option<'a>(options: &'a Vec<OptionNode>, name: &str) -> (r: Result<
    Option<&'a ObjectNode>,
    SchemaError,
>)
    ensures
        match r {
            Ok(Some(arg)) => option_named(options.deep_view(), name@, 0) == Ok::<
                Option<ObjectNodeView>,
                SchemaError,
            >(Some(arg@)),
            Ok(None) => option_named(options.deep_view(), name@, 0) == Ok::<
                Option<ObjectNodeView>,
                SchemaError,
            >(None),
            Err(e) => option_named(options.deep_view(), name@, 0) == Err::<
                Option<ObjectNodeView>,
                SchemaError,
            >(e),
        },
{
    let ghost entries = options.deep_view();
    let mut i: usize = 0;
    while i < options.len()
        invariant
            i <= options.len(),
            entries == options.deep_view(),
            option_named(entries, name@, 0) == option_named(entries, name@, i as int),
        decreases options.len() - i,
    {
        assert(entries[i as int] == options[i as int]@);
        match &options[i] {
            OptionNode::Absent => {
                return Err(SchemaError::MalformedStatement);
            },
            OptionNode::DefElem { name: n, arg } => {
                if str_eq(n.as_str(), name) {
                    return Ok(Some(arg));
                }
            },
            OptionNode::Other => {},
        }
        i += 1;
    }
    Ok(None)
}

/// What an `ALTER SEQUENCE` statement adds to the catalog.
fn classify_alter_sequence(sql: &str, sequence: &Option<Relation>, options: &Vec<OptionNode>) -> (r:
    Result<Classification, SchemaError>)
    ensures
        outcome_of(r) == alter_sequence_outcome(
            sql@,
            sequence.deep_view(),
            options.deep_view(),
        ),
{
    let seq = match sequence {
        Some(seq) => seq,
        None => {
            return Err(SchemaError::MalformedStatement);
        },
    };
    match find_option(options, "owned_by")? {
        Some(ObjectNode::List(items)) => {
            let names = extract_names(items)?;
            validate_item_count(names.as_slice(), 3)?;
            if !str_eq(names[0].as_str(), seq.schema.as_str()) {
                return Err(SchemaError::MalformedStatement);
            }
            Ok(
                Classification::Entity(
                    StatementLocation::Sequence(
                        Sequence {
                            table: Some(names[1].clone()),
                            schema: seq.schema.clone(),
                            name: seq.name.clone(),
                            sql: String::from_str(sql),
                        },
                    ),
                ),
            )
        },
        Some(_) => Err(SchemaError::MalformedStatement),
        None => Err(SchemaError::UnsupportedStatementKind),
    }
}

/// What a grant adds to the catalog.
fn classify_grant(
    sql: &str,
    target: ObjectType,
    objects: &Vec<ObjectNode>,
    nodes: &[StatementLocation],
) -> (r: Result<Classification, SchemaError>)
    ensures
        outcome_of(r) == grant_outcome(sql@, target, objects.deep_view(), nodes.deep_view()),
{
    let absent = ObjectNode::Absent;
    let object = if objects.len() > 0 {
        assert(objects.deep_view()[0] == objects[0]@);
        &objects[0]
    } else {
        &absent
    };
    match target {
        ObjectType::Schema => match object {
            ObjectNode::Text(name) => Ok(
                Classification::Entity(
                    StatementLocation::Schema(
                        Schema { name: name.clone(), sql: String::from_str(sql) },
                    ),
                ),
            ),
            _ => Err(SchemaError::MalformedStatement),
        },
        ObjectType::Table | ObjectType::View => match object {
            ObjectNode::Relation(r) => {
                let kind = resolve_relation(nodes, r.schema.as_str(), r.name.as_str());
                refer(kind, r.schema.clone(), r.name.clone(), String::from_str(sql))
            },
            _ => Err(SchemaError::MalformedStatement),
        },
        ObjectType::Sequence => match object {
            ObjectNode::Relation(r) => Ok(
                Classification::Entity(
                    StatementLocation::Sequence(
                        Sequence {
                            table: None,
                            schema: r.schema.clone(),
                            name: r.name.clone(),
                            sql: String::from_str(sql),
                        },
                    ),
                ),
            ),
            _ => Err(SchemaError::MalformedStatement),
        },
        ObjectType::Function => match object {
            ObjectNode::ObjectWithArgs(parts) => {
                let (schema, name) = qualified_pair(parts)?;
                let kind = resolve_routine(nodes, schema.as_str(), name.as_str());
                refer(kind, schema, name, String::from_str(sql))
            },
            _ => Err(SchemaError::MalformedStatement),
        },
        _ => Err(SchemaError::UnsupportedStatementKind),
    }
}

/// What an `ALTER DEFAULT PRIVILEGES` statement adds to the catalog.
fn classify_default_privileges(sql: &str, options: &Vec<OptionNode>) -> (r: Result<
    Classification,
    SchemaError,
>)
    ensures
        outcome_of(r) == default_privileges_outcome(sql@, options.deep_view()),
{
    match find_option(options, "schemas") {
        Ok(Some(ObjectNode::List(items))) => {
            if items.len() == 0 {
                return Err(SchemaError::MalformedStatement);
            }
            assert(items.deep_view()[0] == items[0].deep_view());
            match &items[0] {
                Some(name) => Ok(
                    Classification::Entity(
                        StatementLocation::Schema(
                            Schema { name: name.clone(), sql: String::from_str(sql) },
                        ),
                    ),
                ),
                None => Err(SchemaError::MalformedStatement),
            }
        },
        _ => Err(SchemaError::MalformedStatement),
    }
}

/// Classifies one statement: from its text `sql`, its syntax tree `stmt`
/// and the catalog `nodes` of the statements before it, to what it adds to
/// the catalog. A statement that refers to an object is resolved against
/// `nodes` alone: the object has to be defined before it is referred to.
pub fn classify(sql: &str, stmt: &Statement, nodes: &[StatementLocation]) -> (r: Result<
    Classification,
    SchemaError,
>)
    ensures
        outcome_of(r) == classification(sql@, stmt@, nodes.deep_view()),
{
    match stmt {
        Statement::CreateSchema { name } => Ok(
            Classification::Entity(
                StatementLocation::Schema(
                    Schema { name: name.clone(), sql: String::from_str(sql) },
                ),
            ),
        ),
        Statement::Comment { target, object, comment } => classify_comment(
            *target,
            object,
            comment.as_str(),
            nodes,
        ),
        Statement::CreateEnum { names } => {
            let (schema, name) = qualified_or_public(names)?;
            Ok(
                Classification::Entity(
                    StatementLocation::EnumNode(Enum { schema, name, sql: String::from_str(sql) }),
                ),
            )
        },
        Statement::Define { kind, names } => classify_define(sql, *kind, names),
        Statement::CreateCompositeType { typevar } => match typevar {
            Some(r) => Ok(
                Classification::Entity(
                    StatementLocation::CompositeType(
                        CompositeType {
                            schema: r.schema.clone(),
                            name: r.name.clone(),
                            sql: String::from_str(sql),
                        },
                    ),
                ),
            ),
            None => Err(SchemaError::MalformedStatement),
        },
        Statement::CreateView { view } => match view {
            Some(r) => Ok(
                Classification::Entity(
                    StatementLocation::View(
                        crate::locations::View {
                            schema: r.schema.clone(),
                            name: r.name.clone(),
                            sql: String::from_str(sql),
                        },
                    ),
                ),
            ),
            None => Err(SchemaError::MalformedStatement),
        },
        Statement::CreatePolicy { name, table } => match table {
            Some(r) => Ok(
                Classification::Entity(
                    StatementLocation::Policy(
                        Policy {
                            schema: r.schema.clone(),
                            name: name.clone(),
                            table: r.name.clone(),
                            sql: String::from_str(sql),
                        },
                    ),
                ),
            ),
            None => Err(SchemaError::MalformedStatement),
        },
        Statement::CreateTable { relation } => match relation {
            Some(r) => Ok(
                Classification::Entity(
                    StatementLocation::Table(
                        Table {
                            schema: r.schema.clone(),
                            name: r.name.clone(),
                            sql: String::from_str(sql),
                        },
                    ),
                ),
            ),
            None => Err(SchemaError::MalformedStatement),
        },
        Statement::CreateTrigger { name, relation, function } => match relation {
            Some(r) => {
                let (_, called) = qualified_or_public(function)?;
                Ok(
                    Classification::Entity(
                        StatementLocation::Trigger(
                            Trigger {
                                schema: r.schema.clone(),
                                name: name.clone(),
                                table: r.name.clone(),
                                function: called,
                                sql: String::from_str(sql),
                            },
                        ),
                    ),
                )
            },
            None => Err(SchemaError::MalformedStatement),
        },
        Statement::CreateFunction { names, return_type } => classify_function(
            sql,
            names,
            return_type,
        ),
        Statement::CreateIndex { name, relation } => match relation {
            Some(r) => Ok(
                Classification::Entity(
                    StatementLocation::Index(
                        Index {
                            schema: r.schema.clone(),
                            name: name.clone(),
                            table: r.name.clone(),
                            sql: String::from_str(sql),
                        },
                    ),
                ),
            ),
            None => Err(SchemaError::MalformedStatement),
        },
        Statement::AlterTable { relation, commands } => classify_alter_table(
            sql,
            relation,
            commands,
        ),
        Statement::VariableSet { reset_all } => {
            if *reset_all {
                Ok(Classification::Nothing)
            } else {
                Ok(
                    Classification::Entity(
                        StatementLocation::Setup(Setup { sql: String::from_str(sql) }),
                    ),
                )
            }
        },
        Statement::Select => Ok(
            Classification::Entity(StatementLocation::Setup(Setup { sql: String::from_str(sql) })),
        ),
        Statement::AlterOwner { target, relation, object } => classify_owner(
            sql,
            *target,
            relation,
            object,
            nodes,
        ),
        Statement::CreateSequence { sequence } => match sequence {
            Some(r) => Ok(
                Classification::Entity(
                    StatementLocation::Sequence(
                        Sequence {
                            table: None,
                            schema: r.schema.clone(),
                            name: r.name.clone(),
                            sql: String::from_str(sql),
                        },
                    ),
                ),
            ),
            None => Err(SchemaError::MalformedStatement),
        },
        Statement::AlterSequence { sequence, options } => classify_alter_sequence(
            sql,
            sequence,
            options,
        ),
        Statement::Grant { target, objects } => classify_grant(sql, *target, objects, nodes),
        Statement::AlterDefaultPrivileges { options } => classify_default_privileges(
            sql,
            options,
        ),
        Statement::Other => Err(SchemaError::UnsupportedStatementKind),
    }
}

/// The catalog after a statement with the outcome `outcome` is taken in:
/// one entity longer where the statement adds one, and as it was
/// otherwise, also where classification fails.
pub open spec fn extended(catalog: Seq<Entity>, outcome: Result<Outcome, SchemaError>) -> Seq<
    Entity,
> {
    match outcome {
        Ok(Outcome::Entity(e)) => catalog.push(e),
        _ => catalog,
    }
}

/// The statements that take the place of a statement with the outcome
/// `outcome`, and are to be classified next.
pub open spec fn pending(outcome: Result<Outcome, SchemaError>) -> Seq<Seq<char>> {
    match outcome {
        Ok(Outcome::Split(statements)) => statements,
        _ => Seq::empty(),
    }
}

/// One step of the pass over a dump: classifies the statement against the
/// catalog `nodes` and appends to `nodes` the entity that it adds. What
/// is returned are the statements to parse and take in next, before the
/// dump goes on: none, but for a statement that adds several constraints.
/// Where classification fails, the catalog is left as it was.
pub fn classify_into(sql: &str, stmt: &Statement, nodes: &mut Vec<StatementLocation>) -> (r: Result<
    Vec<String>,
    SchemaError,
>)
    ensures
        final(nodes).deep_view() == extended(
            old(nodes).deep_view(),
            classification(sql@, stmt@, old(nodes).deep_view()),
        ),
        match r {
            Ok(next) => classification(sql@, stmt@, old(nodes).deep_view()) is Ok
                && next.deep_view() == pending(
                classification(sql@, stmt@, old(nodes).deep_view()),
            ),
            Err(e) => classification(sql@, stmt@, old(nodes).deep_view()) == Err::<
                Outcome,
                SchemaError,
            >(e),
        },
{
    let ghost before = nodes.deep_view();
    match classify(sql, stmt, nodes.as_slice()) {
        Ok(Classification::Entity(e)) => {
            nodes.push(e);
            assert(nodes.deep_view() =~= before.push(e@));
            let none: Vec<String> = Vec::new();
            assert(none.deep_view() =~= Seq::<Seq<char>>::empty());
            Ok(none)
        },
        Ok(Classification::Nothing) => {
            let none: Vec<String> = Vec::new();
            assert(none.deep_view() =~= Seq::<Seq<char>>::empty());
            Ok(none)
        },
        Ok(Classification::Split(statements)) => Ok(statements),
        Err(e) => Err(e),
    }
}

/// A statement that classification splits is split once: none of the
/// statements that take its place is split again, whatever its syntax
/// tree and the catalog are.
pub proof fn lemma_split_once(
    sql: Seq<char>,
    k: int,
    stmt: StatementView,
    catalog: Seq<Entity>,
)
    requires
        split_constraints(sql) is Some,
        0 <= k < split_constraints(sql)->0.len(),
    ensures
        !(classification(split_constraints(sql)->0[k], stmt, catalog) matches Ok(
            Outcome::Split(_),
        )),
{
    lemma_split_statement_has_one_clause(sql, k);
}

/// A statement of a kind outside the closed set is refused, whatever its
/// text and the catalog are, and the catalog stays as it was.
pub proof fn lemma_other_statement_is_refused(sql: Seq<char>, catalog: Seq<Entity>)
    ensures
        classification(sql, StatementView::Other, catalog) == Err::<Outcome, SchemaError>(
            SchemaError::UnsupportedStatementKind,
        ),
        extended(catalog, classification(sql, StatementView::Other, catalog)) == catalog,
{
}

/// A failure leaves no trace: the catalog is extended only by a statement
/// that is classified.
pub proof fn lemma_failure_adds_nothing(sql: Seq<char>, stmt: StatementView, catalog: Seq<Entity>)
    requires
        classification(sql, stmt, catalog) is Err,
    ensures
        extended(catalog, classification(sql, stmt, catalog)) == catalog,
        pending(classification(sql, stmt, catalog)) == Seq::<Seq<char>>::empty(),
{
}

/// The catalog only grows at its end: what it held before a statement is
/// taken in, it holds afterwards, in the same places.
pub proof fn lemma_catalog_is_append_only(
    sql: Seq<char>,
    stmt: StatementView,
    catalog: Seq<Entity>,
)
    ensures
        catalog.is_prefix_of(extended(catalog, classification(sql, stmt, catalog))),
        extended(catalog, classification(sql, stmt, catalog)).len() <= catalog.len() + 1,
{
}

} // verus!
