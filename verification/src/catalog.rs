//! The catalog: the entities classified so far, in the order of the dump,
//! and the search in it for the object that a statement refers to.

use vstd::prelude::*;
use vstd::view::View as _;
use crate::locations::{Entity, StatementLocation};
use crate::text::str_eq;

verus! {

/// The kinds of entity that a later statement can refer to by schema and
/// name.
#[derive(Debug, Clone, Copy, PartialEq, Eq, Structural)]
pub enum Kind {
    Table,
    View,
    Enum,
    CompositeType,
    TriggerFunction,
    Function,
    Aggregate,
}

/// `e` is an entity of kind `kind` about the object `schema`.`name`.
pub open spec fn named(e: Entity, kind: Kind, schema: Seq<char>, name: Seq<char>) -> bool {
    match e {
        Entity::Table { schema: s, name: n, .. } => kind == Kind::Table && s == schema && n
            == name,
        Entity::View { schema: s, name: n, .. } => kind == Kind::View && s == schema && n == name,
        Entity::Enum { schema: s, name: n, .. } => kind == Kind::Enum && s == schema && n == name,
        Entity::CompositeType { schema: s, name: n, .. } => kind == Kind::CompositeType && s
            == schema && n == name,
        Entity::TriggerFunction { schema: s, name: n, .. } => kind == Kind::TriggerFunction && s
            == schema && n == name,
        Entity::Function { schema: s, name: n, .. } => kind == Kind::Function && s == schema && n
            == name,
        Entity::Aggregate { schema: s, name: n, .. } => kind == Kind::Aggregate && s == schema
            && n == name,
        _ => false,
    }
}

/// The catalog holds an entity of kind `kind` about `schema`.`name`.
pub open spec fn defined(catalog: Seq<Entity>, kind: Kind, schema: Seq<char>, name: Seq<char>) -> bool {
    exists|i: int| 0 <= i < catalog.len() && named(#[trigger] catalog[i], kind, schema, name)
}

/// Whether `node` is an entity of kind `kind` about `schema`.`name`.
pub fn is_named(node: &StatementLocation, kind: Kind, schema: &str, name: &str) -> (r: bool)
    ensures
        r == named(node@, kind, schema@, name@),
{
    match node {
        StatementLocation::Table(n) => kind == Kind::Table && str_eq(n.name.as_str(), name)
            && str_eq(n.schema.as_str(), schema),
        StatementLocation::View(n) => kind == Kind::View && str_eq(n.name.as_str(), name)
            && str_eq(n.schema.as_str(), schema),
        StatementLocation::EnumNode(n) => kind == Kind::Enum && str_eq(n.name.as_str(), name)
            && str_eq(n.schema.as_str(), schema),
        StatementLocation::CompositeType(n) => kind == Kind::CompositeType && str_eq(
            n.name.as_str(),
            name,
        ) && str_eq(n.schema.as_str(), schema),
        StatementLocation::TriggerFunction(n) => kind == Kind::TriggerFunction && str_eq(
            n.name.as_str(),
            name,
        ) && str_eq(n.schema.as_str(), schema),
        StatementLocation::Function(n) => kind == Kind::Function && str_eq(n.name.as_str(), name)
            && str_eq(n.schema.as_str(), schema),
        StatementLocation::Aggregate(n) => kind == Kind::Aggregate && str_eq(
            n.name.as_str(),
            name,
        ) && str_eq(n.schema.as_str(), schema),
        _ => false,
    }
}

/// Whether the catalog holds an entity of kind `kind` about
/// `schema`.`name`.
pub fn find_node_by_name(nodes: &[StatementLocation], schema: &str, name: &str, kind: Kind) -> (r:
    bool)
    ensures
        r == defined(nodes.deep_view(), kind, schema@, name@),
{
    let ghost catalog = nodes.deep_view();
    let mut i: usize = 0;
    while i < nodes.len()
        invariant
            i <= nodes.len(),
            catalog == nodes.deep_view(),
            forall|k: int| 0 <= k < i ==> !named(#[trigger] catalog[k], kind, schema@, name@),
        decreases nodes.len() - i,
    {
        assert(catalog[i as int] == nodes[i as int]@);
        if is_named(&nodes[i], kind, schema, name) {
            return true;
        }
        i += 1;
    }
    false
}

/// The entities of kind `kind` about `schema`.`name`, in the order of the
/// catalog.
pub fn nodes_by_name<'a>(
    nodes: &'a [StatementLocation],
    schema: &str,
    name: &str,
    kind: Kind,
) -> (r: Vec<&'a StatementLocation>)
    ensures
        r.deep_view() == nodes.deep_view().filter(
            |e: Entity| named(e, kind, schema@, name@),
        ),
{
    let ghost catalog = nodes.deep_view();
    let ghost wanted = |e: Entity| named(e, kind, schema@, name@);
    let mut found: Vec<&StatementLocation> = Vec::new();
    let mut i: usize = 0;
    proof {
        reveal(Seq::filter);
        assert(catalog.take(0) =~= Seq::<Entity>::empty());
        assert(found.deep_view() =~= Seq::<Entity>::empty());
    }
    while i < nodes.len()
        invariant
            i <= nodes.len(),
            catalog == nodes.deep_view(),
            wanted == |e: Entity| named(e, kind, schema@, name@),
            found.deep_view() == catalog.take(i as int).filter(wanted),
        decreases nodes.len() - i,
    {
        let ghost before = found.deep_view();
        proof {
            reveal(Seq::filter);
            assert(catalog[i as int] == nodes[i as int]@);
            assert(catalog.take(i + 1).drop_last() =~= catalog.take(i as int));
            assert(catalog.take(i + 1).last() == catalog[i as int]);
        }
        if is_named(&nodes[i], kind, schema, name) {
            found.push(&nodes[i]);
            assert(found.deep_view() =~= before.push(nodes[i as int]@));
        }
        i += 1;
    }
    assert(catalog.take(nodes.len() as int) =~= catalog);
    found
}

/// Whether the catalog holds a table `schema`.`name`.
pub fn find_table(nodes: &[StatementLocation], schema: &str, name: &str) -> (r: bool)
    ensures
        r == defined(nodes.deep_view(), Kind::Table, schema@, name@),
{
    find_node_by_name(nodes, schema, name, Kind::Table)
}

/// Whether the catalog holds a view `schema`.`name`.
pub fn find_view(nodes: &[StatementLocation], schema: &str, name: &str) -> (r: bool)
    ensures
        r == defined(nodes.deep_view(), Kind::View, schema@, name@),
{
    find_node_by_name(nodes, schema, name, Kind::View)
}

/// Whether the catalog holds an enum type `schema`.`name`.
pub fn find_enum(nodes: &[StatementLocation], schema: &str, name: &str) -> (r: bool)
    ensures
        r == defined(nodes.deep_view(), Kind::Enum, schema@, name@),
{
    find_node_by_name(nodes, schema, name, Kind::Enum)
}

/// Whether the catalog holds a composite type `schema`.`name`.
pub fn find_composite_type(nodes: &[StatementLocation], schema: &str, name: &str) -> (r: bool)
    ensures
        r == defined(nodes.deep_view(), Kind::CompositeType, schema@, name@),
{
    find_node_by_name(nodes, schema, name, Kind::CompositeType)
}

/// Whether the catalog holds a trigger function `schema`.`name`.
pub fn find_trigger_function(nodes: &[StatementLocation], schema: &str, name: &str) -> (r: bool)
    ensures
        r == defined(nodes.deep_view(), Kind::TriggerFunction, schema@, name@),
{
    find_node_by_name(nodes, schema, name, Kind::TriggerFunction)
}

/// Whether the catalog holds a function `schema`.`name` that is no trigger
/// function.
pub fn find_function(nodes: &[StatementLocation], schema: &str, name: &str) -> (r: bool)
    ensures
        r == defined(nodes.deep_view(), Kind::Function, schema@, name@),
{
    find_node_by_name(nodes, schema, name, Kind::Function)
}

/// Whether the catalog holds an aggregate `schema`.`name`.
pub fn find_aggregate(nodes: &[StatementLocation], schema: &str, name: &str) -> (r: bool)
    ensures
        r == defined(nodes.deep_view(), Kind::Aggregate, schema@, name@),
{
    find_node_by_name(nodes, schema, name, Kind::Aggregate)
}

/// The kind under which the relation `schema`.`name` is known to the
/// catalog: a table before a view.
pub open spec fn relation_kind(catalog: Seq<Entity>, schema: Seq<char>, name: Seq<char>) -> Option<
    Kind,
> {
    if defined(catalog, Kind::Table, schema, name) {
        Some(Kind::Table)
    } else if defined(catalog, Kind::View, schema, name) {
        Some(Kind::View)
    } else {
        None
    }
}

/// The kind under which the routine `schema`.`name` is known to the
/// catalog: a trigger function before a function before an aggregate.
pub open spec fn routine_kind(catalog: Seq<Entity>, schema: Seq<char>, name: Seq<char>) -> Option<
    Kind,
> {
    if defined(catalog, Kind::TriggerFunction, schema, name) {
        Some(Kind::TriggerFunction)
    } else if defined(catalog, Kind::Function, schema, name) {
        Some(Kind::Function)
    } else if defined(catalog, Kind::Aggregate, schema, name) {
        Some(Kind::Aggregate)
    } else {
        None
    }
}

/// The kind under which the type `schema`.`name` is known to the catalog:
/// an enum before a composite type.
pub open spec fn type_kind(catalog: Seq<Entity>, schema: Seq<char>, name: Seq<char>) -> Option<
    Kind,
> {
    if defined(catalog, Kind::Enum, schema, name) {
        Some(Kind::Enum)
    } else if defined(catalog, Kind::CompositeType, schema, name) {
        Some(Kind::CompositeType)
    } else {
        None
    }
}

/// The kind under which the relation `schema`.`name` is known to the
/// catalog: a table before a view.
pub fn resolve_relation(nodes: &[StatementLocation], schema: &str, name: &str) -> (r: Option<Kind>)
    ensures
        r == relation_kind(nodes.deep_view(), schema@, name@),
{
    if find_table(nodes, schema, name) {
        Some(Kind::Table)
    } else if find_view(nodes, schema, name) {
        Some(Kind::View)
    } else {
        None
    }
}

/// The kind under which the routine `schema`.`name` is known to the
/// catalog: a trigger function before a function before an aggregate.
pub fn resolve_routine(nodes: &[StatementLocation], schema: &str, name: &str) -> (r: Option<Kind>)
    ensures
        r == routine_kind(nodes.deep_view(), schema@, name@),
{
    if find_trigger_function(nodes, schema, name) {
        Some(Kind::TriggerFunction)
    } else if find_function(nodes, schema, name) {
        Some(Kind::Function)
    } else if find_aggregate(nodes, schema, name) {
        Some(Kind::Aggregate)
    } else {
        None
    }
}

/// The kind under which the type `schema`.`name` is known to the catalog:
/// an enum before a composite type.
pub fn resolve_type(nodes: &[StatementLocation], schema: &str, name: &str) -> (r: Option<Kind>)
    ensures
        r == type_kind(nodes.deep_view(), schema@, name@),
{
    if find_enum(nodes, schema, name) {
        Some(Kind::Enum)
    } else if find_composite_type(nodes, schema, name) {
        Some(Kind::CompositeType)
    } else {
        None
    }
}

} // verus!
