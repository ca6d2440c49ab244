//! The typed entities of a schema and the file each of them belongs to.

use vstd::prelude::*;
use vstd::view::View as _;
use crate::error::SchemaError;
use crate::text::{last_char, str_eq};

verus! {

/// The mathematical value of a classified statement: its kind, the names
/// that place it, and its text.
#[allow(inconsistent_fields)]
pub enum Entity {
    Schema { name: Seq<char>, sql: Seq<char> },
    Table { schema: Seq<char>, name: Seq<char>, sql: Seq<char> },
    Function { schema: Seq<char>, name: Seq<char>, sql: Seq<char> },
    EnablePolicy { schema: Seq<char>, table: Seq<char>, sql: Seq<char> },
    Policy { schema: Seq<char>, name: Seq<char>, table: Seq<char>, sql: Seq<char> },
    Index { schema: Seq<char>, name: Seq<char>, table: Seq<char>, sql: Seq<char> },
    View { schema: Seq<char>, name: Seq<char>, sql: Seq<char> },
    TriggerFunction { schema: Seq<char>, name: Seq<char>, sql: Seq<char> },
    Trigger {
        schema: Seq<char>,
        name: Seq<char>,
        table: Seq<char>,
        function: Seq<char>,
        sql: Seq<char>,
    },
    Enum { schema: Seq<char>, name: Seq<char>, sql: Seq<char> },
    CompositeType { schema: Seq<char>, name: Seq<char>, sql: Seq<char> },
    ForeignKey {
        constraint_name: Seq<char>,
        source_schema: Seq<char>,
        source_table: Seq<char>,
        target_schema: Seq<char>,
        target_table: Seq<char>,
        sql: Seq<char>,
    },
    Setup { sql: Seq<char> },
    Aggregate { schema: Seq<char>, name: Seq<char>, sql: Seq<char> },
    Operator { schema: Seq<char>, name: Seq<char>, sql: Seq<char> },
    Sequence { table: Option<Seq<char>>, schema: Seq<char>, name: Seq<char>, sql: Seq<char> },
}

/// A statement about a schema: its creation, a comment on it, a grant, a
/// change of owner or of default privileges.
#[derive(Debug, PartialEq, Eq)]
pub struct Schema {
    pub name: String,
    pub sql: String,
}

/// A statement that is filed with a table: its creation, a comment on it
/// or on one of its columns, a grant, a column default, or a constraint
/// other than a foreign key.
#[derive(Debug, PartialEq, Eq)]
pub struct Table {
    pub schema: String,
    pub name: String,
    pub sql: String,
}

/// A statement about a function that is not a trigger function.
#[derive(Debug, PartialEq, Eq)]
pub struct Function {
    pub schema: String,
    pub name: String,
    pub sql: String,
}

/// The statement that turns row level security on for a table.
#[derive(Debug, PartialEq, Eq)]
pub struct EnablePolicy {
    pub schema: String,
    pub table: String,
    pub sql: String,
}

/// The creation of a row level security policy on a table.
#[derive(Debug, PartialEq, Eq)]
pub struct Policy {
    pub schema: String,
    pub name: String,
    pub table: String,
    pub sql: String,
}

/// The creation of an index on a table.
#[derive(Debug, PartialEq, Eq)]
pub struct Index {
    pub schema: String,
    pub name: String,
    pub table: String,
    pub sql: String,
}

/// A statement about a view.
#[derive(Debug, PartialEq, Eq)]
pub struct View {
    pub schema: String,
    pub name: String,
    pub sql: String,
}

/// A statement about a function that returns `trigger`.
#[derive(Debug, PartialEq, Eq)]
pub struct TriggerFunction {
    pub schema: String,
    pub name: String,
    pub sql: String,
}

/// The creation of a trigger on a table, with the name of the function it
/// calls.
#[derive(Debug, PartialEq, Eq)]
pub struct Trigger {
    pub schema: String,
    pub name: String,
    pub table: String,
    pub function: String,
    pub sql: String,
}

/// A statement about an enum type.
#[derive(Debug, PartialEq, Eq)]
pub struct Enum {
    pub schema: String,
    pub name: String,
    pub sql: String,
}

/// A statement about a composite type.
#[derive(Debug, PartialEq, Eq)]
pub struct CompositeType {
    pub schema: String,
    pub name: String,
    pub sql: String,
}

/// A statement of the session: a variable that is set, or a bare query.
#[derive(Debug, PartialEq, Eq)]
pub struct Setup {
    pub sql: String,
}

/// A foreign key from the source table to the target table.
#[derive(Debug, PartialEq, Eq)]
pub struct ForeignKey {
    pub constraint_name: String,
    pub source_schema: String,
    pub source_table: String,
    pub target_schema: String,
    pub target_table: String,
    pub sql: String,
}

/// A statement about an aggregate.
#[derive(Debug, PartialEq, Eq)]
pub struct Aggregate {
    pub schema: String,
    pub name: String,
    pub sql: String,
}

/// A statement about an operator.
#[derive(Debug, PartialEq, Eq)]
pub struct Operator {
    pub schema: String,
    pub name: String,
    pub sql: String,
}

/// A statement about a sequence. The table that owns the sequence is known
/// where the statement itself declares it.
#[derive(Debug, PartialEq, Eq)]
pub struct Sequence {
    pub table: Option<String>,
    pub schema: String,
    pub name: String,
    pub sql: String,
}

/// One classified statement, tagged by the kind of object it is about.
#[derive(Debug, PartialEq, Eq)]
pub enum StatementLocation {
    Schema(Schema),
    Table(Table),
    Function(Function),
    EnablePolicy(EnablePolicy),
    Policy(Policy),
    Index(Index),
    View(View),
    TriggerFunction(TriggerFunction),
    Trigger(Trigger),
    EnumNode(Enum),
    CompositeType(CompositeType),
    ForeignKey(ForeignKey),
    Setup(Setup),
    Aggregate(Aggregate),
    Operator(Operator),
    Sequence(Sequence),
}

impl vstd::view::View for Schema {
    type V = Entity;

    open spec fn view(&self) -> Entity {
        Entity::Schema { name: self.name@, sql: self.sql@ }
    }
}

impl vstd::view::View for Table {
    type V = Entity;

    open spec fn view(&self) -> Entity {
        Entity::Table { schema: self.schema@, name: self.name@, sql: self.sql@ }
    }
}

impl vstd::view::View for Function {
    type V = Entity;

    open spec fn view(&self) -> Entity {
        Entity::Function { schema: self.schema@, name: self.name@, sql: self.sql@ }
    }
}

impl vstd::view::View for EnablePolicy {
    type V = Entity;

    open spec fn view(&self) -> Entity {
        Entity::EnablePolicy { schema: self.schema@, table: self.table@, sql: self.sql@ }
    }
}

impl vstd::view::View for Policy {
    type V = Entity;

    open spec fn view(&self) -> Entity {
        Entity::Policy { schema: self.schema@, name: self.name@, table: self.table@, sql: self.sql@ }
    }
}

impl vstd::view::View for Index {
    type V = Entity;

    open spec fn view(&self) -> Entity {
        Entity::Index { schema: self.schema@, name: self.name@, table: self.table@, sql: self.sql@ }
    }
}

impl vstd::view::View for View {
    type V = Entity;

    open spec fn view(&self) -> Entity {
        Entity::View { schema: self.schema@, name: self.name@, sql: self.sql@ }
    }
}

impl vstd::view::View for TriggerFunction {
    type V = Entity;

    open spec fn view(&self) -> Entity {
        Entity::TriggerFunction { schema: self.schema@, name: self.name@, sql: self.sql@ }
    }
}

impl vstd::view::View for Trigger {
    type V = Entity;

    open spec fn view(&self) -> Entity {
        Entity::Trigger { schema: self.schema@, name: self.name@, table: self.table@, function: self.function@, sql: self.sql@ }
    }
}

impl vstd::view::View for Enum {
    type V = Entity;

    open spec fn view(&self) -> Entity {
        Entity::Enum { schema: self.schema@, name: self.name@, sql: self.sql@ }
    }
}

impl vstd::view::View for CompositeType {
    type V = Entity;

    open spec fn view(&self) -> Entity {
        Entity::CompositeType { schema: self.schema@, name: self.name@, sql: self.sql@ }
    }
}

impl vstd::view::View for Setup {
    type V = Entity;

    open spec fn view(&self) -> Entity {
        Entity::Setup { sql: self.sql@ }
    }
}

impl vstd::view::View for ForeignKey {
    type V = Entity;

    open spec fn view(&self) -> Entity {
        Entity::ForeignKey { constraint_name: self.constraint_name@, source_schema: self.source_schema@, source_table: self.source_table@, target_schema: self.target_schema@, target_table: self.target_table@, sql: self.sql@ }
    }
}

impl vstd::view::View for Aggregate {
    type V = Entity;

    open spec fn view(&self) -> Entity {
        Entity::Aggregate { schema: self.schema@, name: self.name@, sql: self.sql@ }
    }
}

impl vstd::view::View for Operator {
    type V = Entity;

    open spec fn view(&self) -> Entity {
        Entity::Operator { schema: self.schema@, name: self.name@, sql: self.sql@ }
    }
}

impl vstd::view::View for Sequence {
    type V = Entity;

    open spec fn view(&self) -> Entity {
        Entity::Sequence { table: self.table.deep_view(), schema: self.schema@, name: self.name@, sql: self.sql@ }
    }
}

impl vstd::view::View for StatementLocation {
    type V = Entity;

    open spec fn view(&self) -> Entity {
        match self {
            StatementLocation::Schema(n) => n@,
            StatementLocation::Table(n) => n@,
            StatementLocation::Function(n) => n@,
            StatementLocation::EnablePolicy(n) => n@,
            StatementLocation::Policy(n) => n@,
            StatementLocation::Index(n) => n@,
            StatementLocation::View(n) => n@,
            StatementLocation::TriggerFunction(n) => n@,
            StatementLocation::Trigger(n) => n@,
            StatementLocation::EnumNode(n) => n@,
            StatementLocation::CompositeType(n) => n@,
            StatementLocation::ForeignKey(n) => n@,
            StatementLocation::Setup(n) => n@,
            StatementLocation::Aggregate(n) => n@,
            StatementLocation::Operator(n) => n@,
            StatementLocation::Sequence(n) => n@,
        }
    }
}

impl DeepView for StatementLocation {
    type V = Entity;

    open spec fn deep_view(&self) -> Entity {
        self@
    }
}

/// The text `s`, closed by a semicolon if it is not already.
pub open spec fn with_semicolon(s: Seq<char>) -> Seq<char> {
    if s.len() > 0 && s.last() == ';' {
        s
    } else {
        s.push(';')
    }
}

/// The table of `e`, if `e` is a trigger that calls `function`.
pub open spec fn trigger_table(e: Entity, function: Seq<char>) -> Option<Seq<char>> {
    match e {
        Entity::Trigger { table, function: f, .. } => if f == function {
            Some(table)
        } else {
            None
        },
        _ => None,
    }
}

/// `table` is the one table whose triggers call `function`: a trigger of
/// the catalog on `table` calls it, and no trigger on another table does.
pub open spec fn only_table_calling(
    catalog: Seq<Entity>,
    function: Seq<char>,
    table: Seq<char>,
) -> bool {
    &&& exists|i: int|
        0 <= i < catalog.len() && trigger_table(#[trigger] catalog[i], function) == Some(table)
    &&& forall|i: int|
        0 <= i < catalog.len() && trigger_table(#[trigger] catalog[i], function) is Some
            ==> trigger_table(catalog[i], function) == Some(table)
}

/// The one table whose triggers call `function`, if there is exactly one
/// such table in the whole catalog.
pub open spec fn sole_trigger_table(catalog: Seq<Entity>, function: Seq<char>) -> Option<
    Seq<char>,
> {
    if exists|t: Seq<char>| only_table_calling(catalog, function, t) {
        Some(choose|t: Seq<char>| only_table_calling(catalog, function, t))
    } else {
        None
    }
}

/// The owning table that `e` declares for the sequence `schema`.`name`, if
/// `e` is an entity of that sequence and carries one.
pub open spec fn declared_owner(e: Entity, schema: Seq<char>, name: Seq<char>) -> Option<
    Seq<char>,
> {
    match e {
        Entity::Sequence { table, schema: s, name: n, .. } => if s == schema && n == name {
            table
        } else {
            None
        },
        _ => None,
    }
}

/// The owning table declared by the first entity at or after `from` that
/// declares one for the sequence `schema`.`name`.
pub open spec fn sequence_owner_from(
    catalog: Seq<Entity>,
    schema: Seq<char>,
    name: Seq<char>,
    from: int,
) -> Option<Seq<char>>
    decreases catalog.len() - from,
{
    if from < 0 || from >= catalog.len() {
        None
    } else if declared_owner(catalog[from], schema, name) is Some {
        declared_owner(catalog[from], schema, name)
    } else {
        sequence_owner_from(catalog, schema, name, from + 1)
    }
}

/// The owning table of the sequence `schema`.`name`: the one that the
/// first entity of the catalog to declare one declares.
pub open spec fn sequence_owner(catalog: Seq<Entity>, schema: Seq<char>, name: Seq<char>) -> Option<
    Seq<char>,
> {
    sequence_owner_from(catalog, schema, name, 0)
}

impl Entity {
    /// The statement's text as it was classified.
    pub open spec fn sql(self) -> Seq<char> {
        match self {
            Entity::Schema { sql, .. } => sql,
            Entity::Table { sql, .. } => sql,
            Entity::Function { sql, .. } => sql,
            Entity::EnablePolicy { sql, .. } => sql,
            Entity::Policy { sql, .. } => sql,
            Entity::Index { sql, .. } => sql,
            Entity::View { sql, .. } => sql,
            Entity::TriggerFunction { sql, .. } => sql,
            Entity::Trigger { sql, .. } => sql,
            Entity::Enum { sql, .. } => sql,
            Entity::CompositeType { sql, .. } => sql,
            Entity::ForeignKey { sql, .. } => sql,
            Entity::Setup { sql } => sql,
            Entity::Aggregate { sql, .. } => sql,
            Entity::Operator { sql, .. } => sql,
            Entity::Sequence { sql, .. } => sql,
        }
    }

    /// The text that is written for the entity: its statement, closed by a
    /// semicolon.
    pub open spec fn rendered(self) -> Seq<char> {
        with_semicolon(self.sql())
    }

    /// The file of the entity, relative to the output root, with `/`
    /// between its parts; `None` where a sequence has no owning table
    /// anywhere in `catalog`.
    pub open spec fn path(self, catalog: Seq<Entity>) -> Option<Seq<char>> {
        match self {
            Entity::Schema { name, .. } => Some(name + "/index.sql"@),
            Entity::Setup { .. } => Some("index.sql"@),
            Entity::Table { schema, name, .. } => Some(schema + "/tables/"@ + name + ".sql"@),
            Entity::Function { schema, name, .. } => Some(
                schema + "/functions/"@ + name + ".sql"@,
            ),
            Entity::EnablePolicy { schema, table, .. } => Some(
                schema + "/policies/"@ + table + "/enable_rls.sql"@,
            ),
            Entity::Policy { schema, name, table, .. } => Some(
                schema + "/policies/"@ + table + "/"@ + name + ".sql"@,
            ),
            Entity::Index { schema, name, table, .. } => Some(
                schema + "/indices/"@ + table + "/"@ + name + ".sql"@,
            ),
            Entity::View { schema, name, .. } => Some(schema + "/views/"@ + name + ".sql"@),
            Entity::TriggerFunction { schema, name, .. } => match sole_trigger_table(
                catalog,
                name,
            ) {
                Some(table) => Some(schema + "/triggers/"@ + table + "/"@ + name + ".sql"@),
                None => Some(schema + "/triggers/"@ + name + ".sql"@),
            },
            Entity::Trigger { schema, table, function, .. } => Some(
                schema + "/triggers/"@ + table + "/"@ + function + ".sql"@,
            ),
            Entity::Enum { schema, name, .. } => Some(schema + "/enums/"@ + name + ".sql"@),
            Entity::CompositeType { schema, name, .. } => Some(
                schema + "/types/"@ + name + ".sql"@,
            ),
            Entity::ForeignKey { constraint_name, source_schema, source_table, .. } => Some(
                source_schema + "/fkeys/"@ + source_table + "/"@ + constraint_name + ".sql"@,
            ),
            Entity::Aggregate { schema, name, .. } => Some(
                schema + "/aggregates/"@ + name + ".sql"@,
            ),
            Entity::Operator { schema, name, .. } => Some(
                schema + "/operators/"@ + name + ".sql"@,
            ),
            Entity::Sequence { table, schema, name, .. } => {
                let owner = if table is Some {
                    table
                } else {
                    sequence_owner(catalog, schema, name)
                };
                match owner {
                    Some(t) => Some(schema + "/tables/"@ + t + ".sql"@),
                    None => None,
                }
            },
        }
    }
}

/// The text `s`, closed by a semicolon if it is not already.
pub fn ensure_semicolon(s: &str) -> (r: String)
    ensures
        r@ == with_semicolon(s@),
{
    let mut r = String::from_str(s);
    if last_char(s) != Some(';') {
        r.push(';');
    }
    r
}

/// `schema`, `dir`, `name` and the extension `.sql`, one after the other.
fn file_in(schema: &String, dir: &str, name: &String) -> (p: String)
    ensures
        p@ == schema@ + dir@ + name@ + ".sql"@,
{
    let mut p = schema.clone();
    p.append(dir);
    p.append(name.as_str());
    p.append(".sql");
    p
}

/// `schema`, `dir`, `table`, a slash, `name` and the extension `.sql`, one
/// after the other.
fn file_under(schema: &String, dir: &str, table: &String, name: &String) -> (p: String)
    ensures
        p@ == schema@ + dir@ + table@ + "/"@ + name@ + ".sql"@,
{
    let mut p = schema.clone();
    p.append(dir);
    p.append(table.as_str());
    p.append("/");
    p.append(name.as_str());
    p.append(".sql");
    p
}

impl StatementLocation {
    /// The text that is written for the entity: its statement, closed by a
    /// semicolon if it is not already.
    pub fn sql(&self) -> (r: String)
        ensures
            r@ == self@.rendered(),
    {
        ensure_semicolon(
            match self {
                StatementLocation::Setup(n) => n.sql.as_str(),
                StatementLocation::Schema(n) => n.sql.as_str(),
                StatementLocation::Table(n) => n.sql.as_str(),
                StatementLocation::Function(n) => n.sql.as_str(),
                StatementLocation::EnablePolicy(n) => n.sql.as_str(),
                StatementLocation::Policy(n) => n.sql.as_str(),
                StatementLocation::Index(n) => n.sql.as_str(),
                StatementLocation::View(n) => n.sql.as_str(),
                StatementLocation::TriggerFunction(n) => n.sql.as_str(),
                StatementLocation::Trigger(n) => n.sql.as_str(),
                StatementLocation::EnumNode(n) => n.sql.as_str(),
                StatementLocation::CompositeType(n) => n.sql.as_str(),
                StatementLocation::ForeignKey(n) => n.sql.as_str(),
                StatementLocation::Aggregate(n) => n.sql.as_str(),
                StatementLocation::Operator(n) => n.sql.as_str(),
                StatementLocation::Sequence(n) => n.sql.as_str(),
            },
        )
    }

    /// The file of the entity, relative to the output root. The whole
    /// catalog is given, not only what precedes the entity: a trigger
    /// function is filed under the one table whose triggers call it, or
    /// directly under `triggers` where there is no such table or more than
    /// one, and a sequence is filed with its owning table, which a later
    /// entity of the same sequence may declare. A sequence for which no
    /// entity declares a table cannot be placed.
    pub fn path(&self, nodes: &[StatementLocation]) -> (r: Result<String, SchemaError>)
        ensures
            match r {
                Ok(p) => self@.path(nodes.deep_view()) == Some(p@),
                Err(e) => e == SchemaError::UnresolvedReference && self@.path(
                    nodes.deep_view(),
                ) is None,
            },
    {
        match self {
            StatementLocation::Schema(n) => {
                let mut p = n.name.clone();
                p.append("/index.sql");
                Ok(p)
            },
            StatementLocation::Setup(_) => Ok(String::from_str("index.sql")),
            StatementLocation::Table(n) => Ok(file_in(&n.schema, "/tables/", &n.name)),
            StatementLocation::Function(n) => Ok(file_in(&n.schema, "/functions/", &n.name)),
            StatementLocation::EnablePolicy(n) => {
                let mut p = n.schema.clone();
                p.append("/policies/");
                p.append(n.table.as_str());
                p.append("/enable_rls.sql");
                Ok(p)
            },
            StatementLocation::Policy(n) => Ok(
                file_under(&n.schema, "/policies/", &n.table, &n.name),
            ),
            StatementLocation::Index(n) => Ok(
                file_under(&n.schema, "/indices/", &n.table, &n.name),
            ),
            StatementLocation::View(n) => Ok(file_in(&n.schema, "/views/", &n.name)),
            StatementLocation::TriggerFunction(n) => {
                match find_sole_trigger_table(nodes, n.name.as_str()) {
                    Some(table) => Ok(file_under(&n.schema, "/triggers/", table, &n.name)),
                    None => Ok(file_in(&n.schema, "/triggers/", &n.name)),
                }
            },
            StatementLocation::Trigger(n) => Ok(
                file_under(&n.schema, "/triggers/", &n.table, &n.function),
            ),
            StatementLocation::EnumNode(n) => Ok(file_in(&n.schema, "/enums/", &n.name)),
            StatementLocation::CompositeType(n) => Ok(file_in(&n.schema, "/types/", &n.name)),
            StatementLocation::ForeignKey(n) => Ok(
                file_under(&n.source_schema, "/fkeys/", &n.source_table, &n.constraint_name),
            ),
            StatementLocation::Aggregate(n) => Ok(file_in(&n.schema, "/aggregates/", &n.name)),
            StatementLocation::Operator(n) => Ok(file_in(&n.schema, "/operators/", &n.name)),
            StatementLocation::Sequence(n) => {
                let owner = match &n.table {
                    Some(t) => Some(t),
                    None => find_sequence_owner(nodes, n.schema.as_str(), n.name.as_str()),
                };
                match owner {
                    Some(t) => Ok(file_in(&n.schema, "/tables/", t)),
                    None => Err(SchemaError::UnresolvedReference),
                }
            },
        }
    }
}

/// The one table whose triggers call `function`, if the catalog holds
/// triggers that call it and all of them are on one table.
pub fn find_sole_trigger_table<'a>(nodes: &'a [StatementLocation], function: &str) -> (r: Option<
    &'a String,
>)
    ensures
        r.deep_view() == sole_trigger_table(nodes.deep_view(), function@),
{
    let ghost catalog = nodes.deep_view();
    let mut first: Option<&String> = None;
    let mut agree = true;
    let ghost mut at: int = 0;
    let mut i: usize = 0;
    while i < nodes.len()
        invariant
            i <= nodes.len(),
            catalog == nodes.deep_view(),
            first is None ==> forall|k: int|
                0 <= k < i ==> trigger_table(#[trigger] catalog[k], function@) is None,
            first is Some ==> 0 <= at < i && trigger_table(catalog[at], function@) == Some(
                first->0@,
            ),
            first is Some && agree ==> forall|k: int|
                0 <= k < i && trigger_table(#[trigger] catalog[k], function@) is Some
                    ==> trigger_table(catalog[k], function@) == Some(first->0@),
            first is Some && !agree ==> exists|k: int|
                0 <= k < i && trigger_table(#[trigger] catalog[k], function@) is Some
                    && trigger_table(catalog[k], function@) != Some(first->0@),
            first is None ==> agree,
        decreases nodes.len() - i,
    {
        assert(catalog[i as int] == nodes[i as int]@);
        if let StatementLocation::Trigger(t) = &nodes[i] {
            if str_eq(t.function.as_str(), function) {
                match first {
                    None => {
                        first = Some(&t.table);
                        proof {
                            at = i as int;
                        }
                    },
                    Some(table) => {
                        if !str_eq(table.as_str(), t.table.as_str()) {
                            agree = false;
                        }
                    },
                }
            }
        }
        i += 1;
    }
    match first {
        Some(table) if agree => {
            proof {
                assert(only_table_calling(catalog, function@, table@));
                let t = choose|t: Seq<char>| only_table_calling(catalog, function@, t);
                assert(trigger_table(catalog[at], function@) == Some(t));
            }
            Some(table)
        },
        _ => {
            proof {
                if exists|t: Seq<char>| only_table_calling(catalog, function@, t) {
                    let t = choose|t: Seq<char>| only_table_calling(catalog, function@, t);
                    if first is Some {
                        assert(trigger_table(catalog[at], function@) == Some(t));
                    } else {
                        let w = choose|w: int|
                            0 <= w < catalog.len() && trigger_table(
                                #[trigger] catalog[w],
                                function@,
                            ) == Some(t);
                        assert(trigger_table(catalog[w], function@) is None);
                    }
                }
            }
            None
        },
    }
}

/// The owning table of the sequence `schema`.`name`: the one that the first
/// entity of the catalog to declare one declares.
pub fn find_sequence_owner<'a>(nodes: &'a [StatementLocation], schema: &str, name: &str) -> (r:
    Option<&'a String>)
    ensures
        r.deep_view() == sequence_owner(nodes.deep_view(), schema@, name@),
{
    let ghost catalog = nodes.deep_view();
    let mut i: usize = 0;
    while i < nodes.len()
        invariant
            i <= nodes.len(),
            catalog == nodes.deep_view(),
            sequence_owner(catalog, schema@, name@) == sequence_owner_from(
                catalog,
                schema@,
                name@,
                i as int,
            ),
        decreases nodes.len() - i,
    {
        assert(catalog[i as int] == nodes[i as int]@);
        if let StatementLocation::Sequence(t) = &nodes[i] {
            if str_eq(t.name.as_str(), name) && str_eq(t.schema.as_str(), schema) {
                if let Some(table) = &t.table {
                    return Some(table);
                }
            }
        }
        i += 1;
    }
    None
}

/// A table `schema`.`name` is filed as `schema/tables/name.sql`, whatever
/// else the catalog holds.
pub proof fn lemma_table_path(
    schema: Seq<char>,
    name: Seq<char>,
    sql: Seq<char>,
    catalog: Seq<Entity>,
)
    ensures
        (Entity::Table { schema, name, sql }).path(catalog) == Some(
            schema + "/tables/"@ + name + ".sql"@,
        ),
{
}

/// A trigger function `name` all of whose triggers are on the one table
/// `table` is filed as `schema/triggers/table/name.sql`.
pub proof fn lemma_trigger_function_of_one_table(
    schema: Seq<char>,
    name: Seq<char>,
    sql: Seq<char>,
    catalog: Seq<Entity>,
    table: Seq<char>,
)
    requires
        only_table_calling(catalog, name, table),
    ensures
        (Entity::TriggerFunction { schema, name, sql }).path(catalog) == Some(
            schema + "/triggers/"@ + table + "/"@ + name + ".sql"@,
        ),
{
    let chosen = choose|t: Seq<char>| only_table_calling(catalog, name, t);
    let i = choose|i: int|
        0 <= i < catalog.len() && trigger_table(#[trigger] catalog[i], name) == Some(table);
    assert(trigger_table(catalog[i], name) == Some(chosen));
}

/// A trigger function `name` that exactly one trigger of the catalog
/// calls, the one at `at`, which is on the table `table`, is filed as
/// `schema/triggers/table/name.sql`.
pub proof fn lemma_trigger_function_of_one_trigger(
    schema: Seq<char>,
    name: Seq<char>,
    sql: Seq<char>,
    catalog: Seq<Entity>,
    at: int,
    table: Seq<char>,
)
    requires
        0 <= at < catalog.len(),
        trigger_table(catalog[at], name) == Some(table),
        forall|j: int|
            0 <= j < catalog.len() && j != at ==> trigger_table(#[trigger] catalog[j], name)
                is None,
    ensures
        (Entity::TriggerFunction { schema, name, sql }).path(catalog) == Some(
            schema + "/triggers/"@ + table + "/"@ + name + ".sql"@,
        ),
{
    assert(only_table_calling(catalog, name, table));
    lemma_trigger_function_of_one_table(schema, name, sql, catalog, table);
}

/// A trigger function `name` that triggers on two different tables call,
/// those at `a` and `b`, is filed as `schema/triggers/name.sql`.
pub proof fn lemma_trigger_function_of_two_tables(
    schema: Seq<char>,
    name: Seq<char>,
    sql: Seq<char>,
    catalog: Seq<Entity>,
    a: int,
    b: int,
)
    requires
        0 <= a < catalog.len(),
        0 <= b < catalog.len(),
        trigger_table(catalog[a], name) is Some,
        trigger_table(catalog[b], name) is Some,
        trigger_table(catalog[a], name) != trigger_table(catalog[b], name),
    ensures
        (Entity::TriggerFunction { schema, name, sql }).path(catalog) == Some(
            schema + "/triggers/"@ + name + ".sql"@,
        ),
{
    if exists|t: Seq<char>| only_table_calling(catalog, name, t) {
        let t = choose|t: Seq<char>| only_table_calling(catalog, name, t);
        assert(trigger_table(catalog[a], name) == Some(t));
        assert(trigger_table(catalog[b], name) == Some(t));
    }
}

/// A trigger function `name` that no trigger of the catalog calls is filed
/// as `schema/triggers/name.sql`.
pub proof fn lemma_trigger_function_of_no_trigger(
    schema: Seq<char>,
    name: Seq<char>,
    sql: Seq<char>,
    catalog: Seq<Entity>,
)
    requires
        forall|j: int| 0 <= j < catalog.len() ==> trigger_table(#[trigger] catalog[j], name) is None,
    ensures
        (Entity::TriggerFunction { schema, name, sql }).path(catalog) == Some(
            schema + "/triggers/"@ + name + ".sql"@,
        ),
{
}

/// The owning table of a sequence is the one that the first entity to
/// declare one declares: where the entity at `at` declares `table` and
/// none before it declares any.
pub proof fn lemma_sequence_owner(
    catalog: Seq<Entity>,
    schema: Seq<char>,
    name: Seq<char>,
    at: int,
    table: Seq<char>,
)
    requires
        0 <= at < catalog.len(),
        declared_owner(catalog[at], schema, name) == Some(table),
        forall|j: int| 0 <= j < at ==> declared_owner(#[trigger] catalog[j], schema, name) is None,
    ensures
        sequence_owner(catalog, schema, name) == Some(table),
{
    lemma_sequence_owner_from(catalog, schema, name, at, table, 0);
}

proof fn lemma_sequence_owner_from(
    catalog: Seq<Entity>,
    schema: Seq<char>,
    name: Seq<char>,
    at: int,
    table: Seq<char>,
    from: int,
)
    requires
        0 <= from <= at < catalog.len(),
        declared_owner(catalog[at], schema, name) == Some(table),
        forall|j: int| 0 <= j < at ==> declared_owner(#[trigger] catalog[j], schema, name) is None,
    ensures
        sequence_owner_from(catalog, schema, name, from) == Some(table),
    decreases at - from,
{
    if from < at {
        lemma_sequence_owner_from(catalog, schema, name, at, table, from + 1);
    }
}

/// A sequence whose own entity names no table is filed with the table
/// that another entity of the same sequence declares, as
/// `schema/tables/table.sql`: where the entity at `at` declares `table`
/// for it and none before that declares any.
pub proof fn lemma_sequence_path(
    schema: Seq<char>,
    name: Seq<char>,
    sql: Seq<char>,
    catalog: Seq<Entity>,
    at: int,
    table: Seq<char>,
)
    requires
        0 <= at < catalog.len(),
        declared_owner(catalog[at], schema, name) == Some(table),
        forall|j: int| 0 <= j < at ==> declared_owner(#[trigger] catalog[j], schema, name) is None,
    ensures
        (Entity::Sequence { table: None, schema, name, sql }).path(catalog) == Some(
            schema + "/tables/"@ + table + ".sql"@,
        ),
{
    lemma_sequence_owner(catalog, schema, name, at, table);
}

/// Only a trigger function and a sequence whose own entity names no table
/// are placed by what the catalog holds: the file of any other entity is
/// the same whatever the catalog is.
pub proof fn lemma_path_without_catalog(e: Entity, first: Seq<Entity>, second: Seq<Entity>)
    requires
        !(e is TriggerFunction),
        !(e matches Entity::Sequence { table, .. } && table is None),
    ensures
        e.path(first) == e.path(second),
{
}

/// Every entity has a file, but a sequence for which neither its own
/// entity nor any other in the catalog names a table.
pub proof fn lemma_path_exists(e: Entity, catalog: Seq<Entity>)
    ensures
        e.path(catalog) is None <==> (e matches Entity::Sequence { table, schema, name, .. }
            && table is None && sequence_owner(catalog, schema, name) is None),
{
}

} // verus!
