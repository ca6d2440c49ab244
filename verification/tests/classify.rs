use init_schema::catalog::{
    find_aggregate, find_composite_type, find_enum, find_function, find_node_by_name, find_table,
    find_trigger_function, find_view, is_named, nodes_by_name, resolve_relation, resolve_routine,
    resolve_type, Kind,
};
use init_schema::classify::{classify, classify_into, Classification};
use init_schema::names::{
    extract_names, extract_schema_and_name, get_schema_or_default, get_sval, qualified_or_public,
    qualified_pair, validate_item_count,
};
use init_schema::error::SchemaError;
use init_schema::locations::{
    Aggregate, CompositeType, EnablePolicy, Enum, ForeignKey, Function, Index, Operator, Policy,
    Schema, Sequence, Setup, StatementLocation, Table, Trigger, TriggerFunction, View,
};
use init_schema::syntax::{
    AlterTableType, ConstraintType, Definition, ObjectNode, ObjectType, OptionNode, Relation,
    Statement, TableCommand,
};

fn s(text: &str) -> String {
    text.to_string()
}

fn rel(schema: &str, name: &str) -> Relation {
    Relation { schema: s(schema), name: s(name) }
}

fn parts(names: &[&str]) -> Vec<Option<String>> {
    names.iter().map(|n| Some(n.to_string())).collect()
}

fn table(schema: &str, name: &str) -> StatementLocation {
    StatementLocation::Table(Table { schema: s(schema), name: s(name), sql: s("t") })
}

fn view(schema: &str, name: &str) -> StatementLocation {
    StatementLocation::View(View { schema: s(schema), name: s(name), sql: s("v") })
}

fn function(schema: &str, name: &str) -> StatementLocation {
    StatementLocation::Function(Function { schema: s(schema), name: s(name), sql: s("f") })
}

fn trigger_function(schema: &str, name: &str) -> StatementLocation {
    StatementLocation::TriggerFunction(TriggerFunction {
        schema: s(schema),
        name: s(name),
        sql: s("tf"),
    })
}

fn aggregate(schema: &str, name: &str) -> StatementLocation {
    StatementLocation::Aggregate(Aggregate { schema: s(schema), name: s(name), sql: s("a") })
}

fn enum_type(schema: &str, name: &str) -> StatementLocation {
    StatementLocation::EnumNode(Enum { schema: s(schema), name: s(name), sql: s("e") })
}

fn composite(schema: &str, name: &str) -> StatementLocation {
    StatementLocation::CompositeType(CompositeType { schema: s(schema), name: s(name), sql: s("c") })
}

fn entity(e: StatementLocation) -> Result<Classification, SchemaError> {
    Ok(Classification::Entity(e))
}

fn malformed() -> Result<Classification, SchemaError> {
    Err(SchemaError::MalformedStatement)
}

fn unsupported() -> Result<Classification, SchemaError> {
    Err(SchemaError::UnsupportedStatementKind)
}

fn unresolved() -> Result<Classification, SchemaError> {
    Err(SchemaError::UnresolvedReference)
}

fn add_constraint(def: Definition) -> Vec<TableCommand> {
    vec![TableCommand::Command { subtype: AlterTableType::AddConstraint, def }]
}

fn constraint(contype: ConstraintType, name: &str, target: Option<Relation>) -> Definition {
    Definition::Constraint { contype, name: s(name), target }
}

fn owned_by(names: &[&str]) -> OptionNode {
    OptionNode::DefElem { name: s("owned_by"), arg: ObjectNode::List(parts(names)) }
}

#[test]
fn is_named_looks_at_kind_schema_and_name() {
    assert!(is_named(&table("app", "users"), Kind::Table, "app", "users"));
    assert!(!is_named(&table("app", "users"), Kind::View, "app", "users"));
    assert!(!is_named(&table("app", "users"), Kind::Table, "app", "user"));
    assert!(!is_named(&table("app", "users"), Kind::Table, "ap", "users"));
    assert!(!is_named(&table("app", "users"), Kind::Table, "users", "app"));
    assert!(is_named(&view("a", "b"), Kind::View, "a", "b"));
    assert!(is_named(&enum_type("a", "b"), Kind::Enum, "a", "b"));
    assert!(is_named(&composite("a", "b"), Kind::CompositeType, "a", "b"));
    assert!(is_named(&trigger_function("a", "b"), Kind::TriggerFunction, "a", "b"));
    assert!(is_named(&function("a", "b"), Kind::Function, "a", "b"));
    assert!(is_named(&aggregate("a", "b"), Kind::Aggregate, "a", "b"));
    assert!(!is_named(&function("a", "b"), Kind::TriggerFunction, "a", "b"));
    let schema = StatementLocation::Schema(Schema { name: s("a"), sql: s("x") });
    assert!(!is_named(&schema, Kind::Table, "a", "a"));
    let operator = StatementLocation::Operator(Operator { schema: s("a"), name: s("b"), sql: s("x") });
    assert!(!is_named(&operator, Kind::Aggregate, "a", "b"));
}

#[test]
fn find_functions_search_the_whole_catalog() {
    let catalog = vec![
        table("app", "users"),
        view("app", "active_users"),
        enum_type("app", "color"),
        composite("app", "pair"),
        trigger_function("app", "notify"),
        function("app", "total"),
        aggregate("app", "sum_all"),
    ];
    assert!(find_table(&catalog, "app", "users"));
    assert!(!find_table(&catalog, "app", "active_users"));
    assert!(!find_table(&[], "app", "users"));
    assert!(find_view(&catalog, "app", "active_users"));
    assert!(!find_view(&catalog, "app", "users"));
    assert!(find_enum(&catalog, "app", "color"));
    assert!(!find_enum(&catalog, "app", "pair"));
    assert!(find_composite_type(&catalog, "app", "pair"));
    assert!(!find_composite_type(&catalog, "app", "color"));
    assert!(find_trigger_function(&catalog, "app", "notify"));
    assert!(!find_trigger_function(&catalog, "app", "total"));
    assert!(find_function(&catalog, "app", "total"));
    assert!(!find_function(&catalog, "app", "notify"));
    assert!(find_aggregate(&catalog, "app", "sum_all"));
    assert!(!find_aggregate(&catalog, "public", "sum_all"));
    assert!(find_node_by_name(&catalog, "app", "sum_all", Kind::Aggregate));
    assert!(!find_node_by_name(&catalog, "app", "sum_all", Kind::Function));
}

#[test]
fn nodes_by_name_lists_the_entities_in_order() {
    let first = StatementLocation::Table(Table { schema: s("app"), name: s("users"), sql: s("1") });
    let second = StatementLocation::Table(Table { schema: s("app"), name: s("users"), sql: s("2") });
    let catalog = vec![
        StatementLocation::Table(Table { schema: s("app"), name: s("users"), sql: s("1") }),
        view("app", "users"),
        table("app", "orders"),
        StatementLocation::Table(Table { schema: s("app"), name: s("users"), sql: s("2") }),
        table("api", "users"),
    ];
    assert_eq!(nodes_by_name(&catalog, "app", "users", Kind::Table), vec![&first, &second]);
    assert_eq!(nodes_by_name(&catalog, "app", "users", Kind::View), vec![&view("app", "users")]);
    assert_eq!(
        nodes_by_name(&catalog, "app", "users", Kind::Function),
        Vec::<&StatementLocation>::new()
    );
    assert_eq!(nodes_by_name(&[], "app", "users", Kind::Table), Vec::<&StatementLocation>::new());
}

#[test]
fn resolution_prefers_tables_trigger_functions_and_enums() {
    let catalog = vec![
        view("app", "x"),
        table("app", "x"),
        aggregate("app", "f"),
        function("app", "f"),
        trigger_function("app", "f"),
        composite("app", "t"),
        enum_type("app", "t"),
        view("app", "only_view"),
        aggregate("app", "only_aggregate"),
        function("app", "plain"),
        aggregate("app", "plain"),
        composite("app", "only_composite"),
    ];
    assert_eq!(resolve_relation(&catalog, "app", "x"), Some(Kind::Table));
    assert_eq!(resolve_relation(&catalog, "app", "only_view"), Some(Kind::View));
    assert_eq!(resolve_relation(&catalog, "app", "f"), None);
    assert_eq!(resolve_routine(&catalog, "app", "f"), Some(Kind::TriggerFunction));
    assert_eq!(resolve_routine(&catalog, "app", "plain"), Some(Kind::Function));
    assert_eq!(resolve_routine(&catalog, "app", "only_aggregate"), Some(Kind::Aggregate));
    assert_eq!(resolve_routine(&catalog, "app", "x"), None);
    assert_eq!(resolve_type(&catalog, "app", "t"), Some(Kind::Enum));
    assert_eq!(resolve_type(&catalog, "app", "only_composite"), Some(Kind::CompositeType));
    assert_eq!(resolve_type(&catalog, "other", "t"), None);
}

#[test]
fn get_sval_gives_the_string_of_a_part() {
    assert_eq!(get_sval(&Some(s("app"))), Ok(s("app")));
    assert_eq!(get_sval(&None), Err(SchemaError::MalformedStatement));
}

#[test]
fn extract_names_wants_every_part_to_be_a_string() {
    assert_eq!(extract_names(&parts(&["a", "b", "c"])), Ok(vec![s("a"), s("b"), s("c")]));
    assert_eq!(extract_names(&vec![]), Ok(vec![]));
    assert_eq!(
        extract_names(&vec![Some(s("a")), None, Some(s("c"))]),
        Err(SchemaError::MalformedStatement)
    );
}

#[test]
fn validate_item_count_wants_the_exact_count() {
    let two = vec![s("a"), s("b")];
    assert_eq!(validate_item_count(&two, 2), Ok(()));
    assert_eq!(validate_item_count(&two, 3), Err(SchemaError::MalformedStatement));
    assert_eq!(validate_item_count(&two, 1), Err(SchemaError::MalformedStatement));
    assert_eq!(validate_item_count(&[], 0), Ok(()));
}

#[test]
fn extract_schema_and_name_wants_two_names() {
    let two = vec![s("app"), s("users")];
    assert_eq!(extract_schema_and_name(&two), Ok(("app", "users")));
    let one = vec![s("users")];
    assert_eq!(extract_schema_and_name(&one), Err(SchemaError::MalformedStatement));
    let three = vec![s("a"), s("b"), s("c")];
    assert_eq!(extract_schema_and_name(&three), Err(SchemaError::MalformedStatement));
}

#[test]
fn get_schema_or_default_falls_back_to_public() {
    assert_eq!(get_schema_or_default(&[s("app"), s("f")]), "app");
    assert_eq!(get_schema_or_default(&[s("a"), s("b"), s("c")]), "a");
    assert_eq!(get_schema_or_default(&[s("f")]), "public");
    assert_eq!(get_schema_or_default(&[]), "public");
}

#[test]
fn qualified_names_are_read_from_their_parts() {
    assert_eq!(qualified_pair(&parts(&["app", "f"])), Ok((s("app"), s("f"))));
    assert_eq!(qualified_pair(&parts(&["f"])), Err(SchemaError::MalformedStatement));
    assert_eq!(qualified_pair(&parts(&["a", "b", "c"])), Err(SchemaError::MalformedStatement));
    assert_eq!(qualified_pair(&vec![Some(s("a")), None]), Err(SchemaError::MalformedStatement));
    assert_eq!(qualified_or_public(&parts(&["app", "f"])), Ok((s("app"), s("f"))));
    assert_eq!(qualified_or_public(&parts(&["f"])), Ok((s("public"), s("f"))));
    assert_eq!(qualified_or_public(&parts(&["a", "b", "c"])), Ok((s("a"), s("c"))));
    assert_eq!(qualified_or_public(&parts(&[])), Err(SchemaError::MalformedStatement));
    assert_eq!(qualified_or_public(&vec![None]), Err(SchemaError::MalformedStatement));
}

#[test]
fn create_schema_gives_a_schema() {
    let stmt = Statement::CreateSchema { name: s("app") };
    assert_eq!(
        classify("CREATE SCHEMA app;", &stmt, &[]),
        entity(StatementLocation::Schema(Schema { name: s("app"), sql: s("CREATE SCHEMA app;") }))
    );
}

#[test]
fn create_table_gives_a_table() {
    let stmt = Statement::CreateTable { relation: Some(rel("app", "users")) };
    assert_eq!(
        classify("CREATE TABLE app.users (id int);", &stmt, &[]),
        entity(StatementLocation::Table(Table {
            schema: s("app"),
            name: s("users"),
            sql: s("CREATE TABLE app.users (id int);"),
        }))
    );
    assert_eq!(classify("x", &Statement::CreateTable { relation: None }, &[]), malformed());
}

#[test]
fn create_view_policy_index_composite_type_and_sequence() {
    assert_eq!(
        classify("v", &Statement::CreateView { view: Some(rel("app", "v")) }, &[]),
        entity(StatementLocation::View(View { schema: s("app"), name: s("v"), sql: s("v") }))
    );
    assert_eq!(classify("v", &Statement::CreateView { view: None }, &[]), malformed());
    assert_eq!(
        classify(
            "p",
            &Statement::CreatePolicy { name: s("own"), table: Some(rel("app", "users")) },
            &[]
        ),
        entity(StatementLocation::Policy(Policy {
            schema: s("app"),
            name: s("own"),
            table: s("users"),
            sql: s("p"),
        }))
    );
    assert_eq!(
        classify("p", &Statement::CreatePolicy { name: s("own"), table: None }, &[]),
        malformed()
    );
    assert_eq!(
        classify(
            "i",
            &Statement::CreateIndex { name: s("idx"), relation: Some(rel("app", "users")) },
            &[]
        ),
        entity(StatementLocation::Index(Index {
            schema: s("app"),
            name: s("idx"),
            table: s("users"),
            sql: s("i"),
        }))
    );
    assert_eq!(
        classify("i", &Statement::CreateIndex { name: s("idx"), relation: None }, &[]),
        malformed()
    );
    assert_eq!(
        classify("c", &Statement::CreateCompositeType { typevar: Some(rel("app", "pair")) }, &[]),
        entity(StatementLocation::CompositeType(CompositeType {
            schema: s("app"),
            name: s("pair"),
            sql: s("c"),
        }))
    );
    assert_eq!(classify("c", &Statement::CreateCompositeType { typevar: None }, &[]), malformed());
    assert_eq!(
        classify("s", &Statement::CreateSequence { sequence: Some(rel("app", "seq")) }, &[]),
        entity(StatementLocation::Sequence(Sequence {
            table: None,
            schema: s("app"),
            name: s("seq"),
            sql: s("s"),
        }))
    );
    assert_eq!(classify("s", &Statement::CreateSequence { sequence: None }, &[]), malformed());
}

#[test]
fn create_enum_reads_the_qualified_name() {
    assert_eq!(
        classify("e", &Statement::CreateEnum { names: parts(&["app", "color"]) }, &[]),
        entity(StatementLocation::EnumNode(Enum { schema: s("app"), name: s("color"), sql: s("e") }))
    );
    assert_eq!(
        classify("e", &Statement::CreateEnum { names: parts(&["color"]) }, &[]),
        entity(StatementLocation::EnumNode(Enum {
            schema: s("public"),
            name: s("color"),
            sql: s("e"),
        }))
    );
    assert_eq!(classify("e", &Statement::CreateEnum { names: vec![] }, &[]), malformed());
    assert_eq!(classify("e", &Statement::CreateEnum { names: vec![None] }, &[]), malformed());
}

#[test]
fn define_gives_an_aggregate_or_an_operator() {
    assert_eq!(
        classify(
            "a",
            &Statement::Define { kind: ObjectType::Aggregate, names: parts(&["app", "agg"]) },
            &[]
        ),
        entity(StatementLocation::Aggregate(Aggregate {
            schema: s("app"),
            name: s("agg"),
            sql: s("a"),
        }))
    );
    assert_eq!(
        classify(
            "o",
            &Statement::Define { kind: ObjectType::Operator, names: parts(&["=="]) },
            &[]
        ),
        entity(StatementLocation::Operator(Operator {
            schema: s("public"),
            name: s("=="),
            sql: s("o"),
        }))
    );
    assert_eq!(
        classify("a", &Statement::Define { kind: ObjectType::Aggregate, names: vec![] }, &[]),
        malformed()
    );
    assert_eq!(
        classify("a", &Statement::Define { kind: ObjectType::Type, names: parts(&["a"]) }, &[]),
        unsupported()
    );
    assert_eq!(
        classify("a", &Statement::Define { kind: ObjectType::Other, names: vec![] }, &[]),
        unsupported()
    );
}

#[test]
fn create_trigger_names_the_function_it_calls() {
    let stmt = Statement::CreateTrigger {
        name: s("on_insert"),
        relation: Some(rel("app", "users")),
        function: parts(&["app", "notify"]),
    };
    assert_eq!(
        classify("t", &stmt, &[]),
        entity(StatementLocation::Trigger(Trigger {
            schema: s("app"),
            name: s("on_insert"),
            table: s("users"),
            function: s("notify"),
            sql: s("t"),
        }))
    );
    let unqualified = Statement::CreateTrigger {
        name: s("on_insert"),
        relation: Some(rel("app", "users")),
        function: parts(&["notify"]),
    };
    assert_eq!(
        classify("t", &unqualified, &[]),
        entity(StatementLocation::Trigger(Trigger {
            schema: s("app"),
            name: s("on_insert"),
            table: s("users"),
            function: s("notify"),
            sql: s("t"),
        }))
    );
    let without_relation = Statement::CreateTrigger {
        name: s("on_insert"),
        relation: None,
        function: parts(&["notify"]),
    };
    assert_eq!(classify("t", &without_relation, &[]), malformed());
    let without_function = Statement::CreateTrigger {
        name: s("on_insert"),
        relation: Some(rel("app", "users")),
        function: vec![],
    };
    assert_eq!(classify("t", &without_function, &[]), malformed());
}

#[test]
fn create_function_is_told_apart_by_its_return_type() {
    let plain = Statement::CreateFunction {
        names: parts(&["app", "total"]),
        return_type: Some(parts(&["pg_catalog", "int4"])),
    };
    assert_eq!(
        classify("f", &plain, &[]),
        entity(StatementLocation::Function(Function {
            schema: s("app"),
            name: s("total"),
            sql: s("f"),
        }))
    );
    let trigger = Statement::CreateFunction {
        names: parts(&["notify"]),
        return_type: Some(parts(&["trigger"])),
    };
    assert_eq!(
        classify("f", &trigger, &[]),
        entity(StatementLocation::TriggerFunction(TriggerFunction {
            schema: s("public"),
            name: s("notify"),
            sql: s("f"),
        }))
    );
    let qualified = Statement::CreateFunction {
        names: parts(&["app", "notify"]),
        return_type: Some(parts(&["pg_catalog", "trigger"])),
    };
    assert_eq!(
        classify("f", &qualified, &[]),
        entity(StatementLocation::TriggerFunction(TriggerFunction {
            schema: s("app"),
            name: s("notify"),
            sql: s("f"),
        }))
    );
    let empty_type =
        Statement::CreateFunction { names: parts(&["app", "f"]), return_type: Some(vec![]) };
    assert_eq!(
        classify("f", &empty_type, &[]),
        entity(StatementLocation::Function(Function { schema: s("app"), name: s("f"), sql: s("f") }))
    );
}

#[test]
fn create_function_with_missing_parts_is_malformed() {
    let no_type = Statement::CreateFunction { names: parts(&["app", "f"]), return_type: None };
    assert_eq!(classify("f", &no_type, &[]), malformed());
    let no_name = Statement::CreateFunction { names: vec![], return_type: Some(parts(&["int4"])) };
    assert_eq!(classify("f", &no_name, &[]), malformed());
    let odd_type = Statement::CreateFunction {
        names: parts(&["app", "f"]),
        return_type: Some(vec![None, Some(s("trigger"))]),
    };
    assert_eq!(classify("f", &odd_type, &[]), malformed());
    let odd_after = Statement::CreateFunction {
        names: parts(&["app", "f"]),
        return_type: Some(vec![Some(s("trigger")), None]),
    };
    assert_eq!(
        classify("f", &odd_after, &[]),
        entity(StatementLocation::TriggerFunction(TriggerFunction {
            schema: s("app"),
            name: s("f"),
            sql: s("f"),
        }))
    );
}

#[test]
fn set_and_select_go_to_setup() {
    assert_eq!(
        classify("SET x = 1;", &Statement::VariableSet { reset_all: false }, &[]),
        entity(StatementLocation::Setup(Setup { sql: s("SET x = 1;") }))
    );
    assert_eq!(
        classify("SELECT 1;", &Statement::Select, &[]),
        entity(StatementLocation::Setup(Setup { sql: s("SELECT 1;") }))
    );
    assert_eq!(
        classify("RESET ALL;", &Statement::VariableSet { reset_all: true }, &[]),
        Ok(Classification::Nothing)
    );
}

#[test]
fn any_other_statement_is_unsupported() {
    assert_eq!(classify("VACUUM;", &Statement::Other, &[]), unsupported());
    assert_eq!(classify("VACUUM;", &Statement::Other, &[table("a", "b")]), unsupported());
}

#[test]
fn comment_on_column_is_filed_with_its_relation() {
    let stmt = Statement::Comment {
        target: ObjectType::Column,
        object: ObjectNode::List(parts(&["app", "users", "id"])),
        comment: s("the user's id"),
    };
    let text = "COMMENT ON COLUMN \"app\".\"users\".\"id\" IS E'the user''s id';";
    assert_eq!(
        classify("raw", &stmt, &[table("app", "users")]),
        entity(StatementLocation::Table(Table { schema: s("app"), name: s("users"), sql: s(text) }))
    );
    assert_eq!(
        classify("raw", &stmt, &[view("app", "users")]),
        entity(StatementLocation::View(View { schema: s("app"), name: s("users"), sql: s(text) }))
    );
    assert_eq!(
        classify("raw", &stmt, &[view("app", "users"), table("app", "users")]),
        entity(StatementLocation::Table(Table { schema: s("app"), name: s("users"), sql: s(text) }))
    );
    assert_eq!(classify("raw", &stmt, &[table("app", "orders")]), unresolved());
    assert_eq!(classify("raw", &stmt, &[]), unresolved());
}

#[test]
fn comment_on_column_wants_three_names() {
    let two = Statement::Comment {
        target: ObjectType::Column,
        object: ObjectNode::List(parts(&["app", "users"])),
        comment: s("c"),
    };
    assert_eq!(classify("raw", &two, &[table("app", "users")]), malformed());
    let odd = Statement::Comment {
        target: ObjectType::Column,
        object: ObjectNode::List(vec![Some(s("app")), Some(s("users")), None]),
        comment: s("c"),
    };
    assert_eq!(classify("raw", &odd, &[table("app", "users")]), malformed());
    let shape = Statement::Comment {
        target: ObjectType::Column,
        object: ObjectNode::ObjectWithArgs(parts(&["app", "users", "id"])),
        comment: s("c"),
    };
    assert_eq!(classify("raw", &shape, &[table("app", "users")]), malformed());
    let absent =
        Statement::Comment { target: ObjectType::Column, object: ObjectNode::Absent, comment: s("c") };
    assert_eq!(classify("raw", &absent, &[table("app", "users")]), malformed());
}

#[test]
fn comment_on_function_follows_the_kind_of_the_function() {
    let stmt = Statement::Comment {
        target: ObjectType::Function,
        object: ObjectNode::ObjectWithArgs(parts(&["app", "f"])),
        comment: s("does 'it'"),
    };
    let text = "COMMENT ON FUNCTION \"app\".\"f\" IS E'does ''it''';";
    assert_eq!(
        classify("raw", &stmt, &[function("app", "f")]),
        entity(StatementLocation::Function(Function {
            schema: s("app"),
            name: s("f"),
            sql: s(text),
        }))
    );
    assert_eq!(
        classify("raw", &stmt, &[function("app", "f"), trigger_function("app", "f")]),
        entity(StatementLocation::TriggerFunction(TriggerFunction {
            schema: s("app"),
            name: s("f"),
            sql: s(text),
        }))
    );
    assert_eq!(
        classify("raw", &stmt, &[aggregate("app", "f")]),
        entity(StatementLocation::Aggregate(Aggregate {
            schema: s("app"),
            name: s("f"),
            sql: s(text),
        }))
    );
    assert_eq!(classify("raw", &stmt, &[table("app", "f")]), unresolved());
    let one = Statement::Comment {
        target: ObjectType::Function,
        object: ObjectNode::ObjectWithArgs(parts(&["f"])),
        comment: s("c"),
    };
    assert_eq!(classify("raw", &one, &[function("app", "f")]), malformed());
    let shape = Statement::Comment {
        target: ObjectType::Function,
        object: ObjectNode::List(parts(&["app", "f"])),
        comment: s("c"),
    };
    assert_eq!(classify("raw", &shape, &[function("app", "f")]), malformed());
}

#[test]
fn comment_on_schema_needs_no_earlier_statement() {
    let stmt = Statement::Comment {
        target: ObjectType::Schema,
        object: ObjectNode::Text(s("app")),
        comment: s("the app's schema"),
    };
    assert_eq!(
        classify("raw", &stmt, &[]),
        entity(StatementLocation::Schema(Schema {
            name: s("app"),
            sql: s("COMMENT ON SCHEMA \"app\" IS E'the app''s schema';"),
        }))
    );
    let shape = Statement::Comment {
        target: ObjectType::Schema,
        object: ObjectNode::List(parts(&["app"])),
        comment: s("c"),
    };
    assert_eq!(classify("raw", &shape, &[]), malformed());
}

#[test]
fn comment_on_type_follows_the_kind_of_the_type() {
    let stmt = Statement::Comment {
        target: ObjectType::Type,
        object: ObjectNode::TypeName(parts(&["app", "color"])),
        comment: s("a colour"),
    };
    let text = "COMMENT ON TYPE \"app\".\"color\" IS E'a colour';";
    assert_eq!(
        classify("raw", &stmt, &[composite("app", "color"), enum_type("app", "color")]),
        entity(StatementLocation::EnumNode(Enum {
            schema: s("app"),
            name: s("color"),
            sql: s(text),
        }))
    );
    assert_eq!(
        classify("raw", &stmt, &[composite("app", "color")]),
        entity(StatementLocation::CompositeType(CompositeType {
            schema: s("app"),
            name: s("color"),
            sql: s(text),
        }))
    );
    assert_eq!(classify("raw", &stmt, &[table("app", "color")]), unresolved());
    let shape = Statement::Comment {
        target: ObjectType::Type,
        object: ObjectNode::List(parts(&["app", "color"])),
        comment: s("c"),
    };
    assert_eq!(classify("raw", &shape, &[enum_type("app", "color")]), malformed());
    let three = Statement::Comment {
        target: ObjectType::Type,
        object: ObjectNode::TypeName(parts(&["a", "app", "color"])),
        comment: s("c"),
    };
    assert_eq!(classify("raw", &three, &[enum_type("app", "color")]), malformed());
}

#[test]
fn comment_on_table_is_written_for_a_table_or_a_view() {
    let stmt = Statement::Comment {
        target: ObjectType::Table,
        object: ObjectNode::List(parts(&["app", "users"])),
        comment: s("users table"),
    };
    assert_eq!(
        classify("raw", &stmt, &[table("app", "users")]),
        entity(StatementLocation::Table(Table {
            schema: s("app"),
            name: s("users"),
            sql: s("COMMENT ON TABLE \"app\".\"users\" IS 'users table';"),
        }))
    );
    assert_eq!(
        classify("raw", &stmt, &[view("app", "users")]),
        entity(StatementLocation::View(View {
            schema: s("app"),
            name: s("users"),
            sql: s("COMMENT ON VIEW \"app\".\"users\" IS 'users table';"),
        }))
    );
    assert_eq!(classify("raw", &stmt, &[]), unresolved());
    let quoted = Statement::Comment {
        target: ObjectType::Table,
        object: ObjectNode::List(parts(&["app", "users"])),
        comment: s("user's"),
    };
    assert_eq!(
        classify("raw", &quoted, &[table("app", "users")]),
        entity(StatementLocation::Table(Table {
            schema: s("app"),
            name: s("users"),
            sql: s("COMMENT ON TABLE \"app\".\"users\" IS 'user's';"),
        }))
    );
    let one = Statement::Comment {
        target: ObjectType::Table,
        object: ObjectNode::List(parts(&["users"])),
        comment: s("c"),
    };
    assert_eq!(classify("raw", &one, &[table("app", "users")]), malformed());
}

#[test]
fn comment_on_a_view_is_resolved_like_one_on_a_table() {
    let stmt = Statement::Comment {
        target: ObjectType::View,
        object: ObjectNode::List(parts(&["app", "v"])),
        comment: s("a view"),
    };
    assert_eq!(
        classify("raw", &stmt, &[view("app", "v")]),
        entity(StatementLocation::View(View {
            schema: s("app"),
            name: s("v"),
            sql: s("COMMENT ON VIEW \"app\".\"v\" IS 'a view';"),
        }))
    );
    assert_eq!(
        classify("raw", &stmt, &[view("app", "v"), table("app", "v")]),
        entity(StatementLocation::Table(Table {
            schema: s("app"),
            name: s("v"),
            sql: s("COMMENT ON TABLE \"app\".\"v\" IS 'a view';"),
        }))
    );
    assert_eq!(classify("raw", &stmt, &[]), unresolved());
    let grant = Statement::Grant {
        target: ObjectType::View,
        objects: vec![ObjectNode::Relation(rel("app", "v"))],
    };
    assert_eq!(
        classify("g", &grant, &[view("app", "v")]),
        entity(StatementLocation::View(View { schema: s("app"), name: s("v"), sql: s("g") }))
    );
    let owner = Statement::AlterOwner {
        target: ObjectType::View,
        relation: Some(rel("app", "v")),
        object: ObjectNode::Absent,
    };
    assert_eq!(
        classify("o", &owner, &[view("app", "v")]),
        entity(StatementLocation::View(View { schema: s("app"), name: s("v"), sql: s("o") }))
    );
}

#[test]
fn comment_on_another_kind_of_object_is_unsupported() {
    for target in [ObjectType::Aggregate, ObjectType::Operator, ObjectType::Sequence, ObjectType::Other] {
        let stmt = Statement::Comment { target, object: ObjectNode::Absent, comment: s("c") };
        assert_eq!(classify("raw", &stmt, &[]), unsupported());
    }
}

#[test]
fn alter_table_is_decided_by_its_first_command() {
    let default = Statement::AlterTable {
        relation: Some(rel("app", "users")),
        commands: vec![
            TableCommand::Command { subtype: AlterTableType::ColumnDefault, def: Definition::Other },
            TableCommand::Other,
        ],
    };
    assert_eq!(
        classify("ALTER TABLE ONLY app.users ALTER COLUMN id SET DEFAULT 1;", &default, &[]),
        entity(StatementLocation::Table(Table {
            schema: s("app"),
            name: s("users"),
            sql: s("ALTER TABLE ONLY app.users ALTER COLUMN id SET DEFAULT 1;"),
        }))
    );
    let rls = Statement::AlterTable {
        relation: Some(rel("app", "users")),
        commands: vec![TableCommand::Command {
            subtype: AlterTableType::EnableRowSecurity,
            def: Definition::Absent,
        }],
    };
    assert_eq!(
        classify("ALTER TABLE app.users ENABLE ROW LEVEL SECURITY;", &rls, &[]),
        entity(StatementLocation::EnablePolicy(EnablePolicy {
            schema: s("app"),
            table: s("users"),
            sql: s("ALTER TABLE app.users ENABLE ROW LEVEL SECURITY;"),
        }))
    );
    let owner = Statement::AlterTable {
        relation: Some(rel("app", "users")),
        commands: vec![TableCommand::Command {
            subtype: AlterTableType::ChangeOwner,
            def: Definition::Absent,
        }],
    };
    assert_eq!(classify("ALTER TABLE app.users OWNER TO me;", &owner, &[]), Ok(Classification::Nothing));
}

#[test]
fn alter_table_outside_the_closed_set() {
    let other = Statement::AlterTable {
        relation: Some(rel("app", "users")),
        commands: vec![TableCommand::Command {
            subtype: AlterTableType::Other,
            def: Definition::Absent,
        }],
    };
    assert_eq!(classify("x", &other, &[]), unsupported());
    let not_a_command =
        Statement::AlterTable { relation: Some(rel("app", "users")), commands: vec![TableCommand::Other] };
    assert_eq!(classify("x", &not_a_command, &[]), unsupported());
    let absent =
        Statement::AlterTable { relation: Some(rel("app", "users")), commands: vec![TableCommand::Absent] };
    assert_eq!(classify("x", &absent, &[]), malformed());
    let none = Statement::AlterTable { relation: Some(rel("app", "users")), commands: vec![] };
    assert_eq!(classify("x", &none, &[]), malformed());
    let no_relation = Statement::AlterTable { relation: None, commands: vec![TableCommand::Other] };
    assert_eq!(classify("x", &no_relation, &[]), malformed());
}

#[test]
fn foreign_key_is_an_entity_of_its_own() {
    let sql = "ALTER TABLE ONLY app.orders ADD CONSTRAINT orders_user_fkey FOREIGN KEY (user_id) REFERENCES auth.users(id);";
    let stmt = Statement::AlterTable {
        relation: Some(rel("app", "orders")),
        commands: add_constraint(constraint(
            ConstraintType::Foreign,
            "orders_user_fkey",
            Some(rel("auth", "users")),
        )),
    };
    assert_eq!(
        classify(sql, &stmt, &[]),
        entity(StatementLocation::ForeignKey(ForeignKey {
            constraint_name: s("orders_user_fkey"),
            source_schema: s("app"),
            source_table: s("orders"),
            target_schema: s("auth"),
            target_table: s("users"),
            sql: s(sql),
        }))
    );
    let no_target = Statement::AlterTable {
        relation: Some(rel("app", "orders")),
        commands: add_constraint(constraint(ConstraintType::Foreign, "orders_user_fkey", None)),
    };
    assert_eq!(classify(sql, &no_target, &[]), malformed());
}

#[test]
fn other_constraints_are_filed_with_the_table() {
    for contype in [
        ConstraintType::Primary,
        ConstraintType::Unique,
        ConstraintType::Check,
        ConstraintType::Exclusion,
    ] {
        let sql = "ALTER TABLE ONLY app.users ADD CONSTRAINT users_c UNIQUE (id);";
        let stmt = Statement::AlterTable {
            relation: Some(rel("app", "users")),
            commands: add_constraint(constraint(contype, "users_c", None)),
        };
        assert_eq!(
            classify(sql, &stmt, &[]),
            entity(StatementLocation::Table(Table {
                schema: s("app"),
                name: s("users"),
                sql: s(sql),
            }))
        );
    }
}

#[test]
fn constraint_of_another_kind_or_shape() {
    let sql = "ALTER TABLE app.users ADD CONSTRAINT c NOT NULL id;";
    let other = Statement::AlterTable {
        relation: Some(rel("app", "users")),
        commands: add_constraint(constraint(ConstraintType::Other, "c", None)),
    };
    assert_eq!(classify(sql, &other, &[]), unsupported());
    let absent = Statement::AlterTable {
        relation: Some(rel("app", "users")),
        commands: add_constraint(Definition::Absent),
    };
    assert_eq!(classify(sql, &absent, &[]), malformed());
    let shape = Statement::AlterTable {
        relation: Some(rel("app", "users")),
        commands: add_constraint(Definition::Other),
    };
    assert_eq!(classify(sql, &shape, &[]), malformed());
}

#[test]
fn several_constraints_are_split_by_the_text() {
    let sql = "ALTER TABLE ONLY app.t\n    ADD CONSTRAINT a PRIMARY KEY (id),\n    ADD CONSTRAINT b UNIQUE (x);";
    let stmt = Statement::AlterTable {
        relation: Some(rel("app", "t")),
        commands: vec![
            TableCommand::Command {
                subtype: AlterTableType::AddConstraint,
                def: constraint(ConstraintType::Primary, "a", None),
            },
            TableCommand::Command {
                subtype: AlterTableType::AddConstraint,
                def: constraint(ConstraintType::Unique, "b", None),
            },
        ],
    };
    assert_eq!(
        classify(sql, &stmt, &[]),
        Ok(Classification::Split(vec![
            s("ALTER TABLE ONLY app.t\n    ADD CONSTRAINT a PRIMARY KEY (id)"),
            s("ALTER TABLE ONLY app.t\n    ADD CONSTRAINT b UNIQUE (x);"),
        ]))
    );
}

#[test]
fn several_constraints_without_the_opening_words_are_malformed() {
    let stmt = Statement::AlterTable {
        relation: Some(rel("app", "t")),
        commands: add_constraint(constraint(ConstraintType::Primary, "a", None)),
    };
    assert_eq!(
        classify("alter table t ADD CONSTRAINT a CHECK (x), ADD CONSTRAINT b CHECK (y);", &stmt, &[]),
        malformed()
    );
    assert_eq!(
        classify(
            "-- ADD CONSTRAINT\nALTER TABLE t ADD CONSTRAINT a CHECK (x);",
            &stmt,
            &[]
        ),
        malformed()
    );
}

#[test]
fn owner_change_of_a_schema_an_aggregate_and_an_operator() {
    let schema = Statement::AlterOwner {
        target: ObjectType::Schema,
        relation: None,
        object: ObjectNode::Text(s("app")),
    };
    assert_eq!(
        classify("ALTER SCHEMA app OWNER TO me;", &schema, &[]),
        entity(StatementLocation::Schema(Schema {
            name: s("app"),
            sql: s("ALTER SCHEMA app OWNER TO me;"),
        }))
    );
    let no_name =
        Statement::AlterOwner { target: ObjectType::Schema, relation: None, object: ObjectNode::Absent };
    assert_eq!(classify("x", &no_name, &[]), malformed());
    let agg = Statement::AlterOwner {
        target: ObjectType::Aggregate,
        relation: None,
        object: ObjectNode::ObjectWithArgs(parts(&["app", "agg"])),
    };
    assert_eq!(
        classify("x", &agg, &[]),
        entity(StatementLocation::Aggregate(Aggregate {
            schema: s("app"),
            name: s("agg"),
            sql: s("x"),
        }))
    );
    let unqualified = Statement::AlterOwner {
        target: ObjectType::Aggregate,
        relation: None,
        object: ObjectNode::ObjectWithArgs(parts(&["agg"])),
    };
    assert_eq!(
        classify("x", &unqualified, &[]),
        entity(StatementLocation::Aggregate(Aggregate {
            schema: s("public"),
            name: s("agg"),
            sql: s("x"),
        }))
    );
    let op = Statement::AlterOwner {
        target: ObjectType::Operator,
        relation: None,
        object: ObjectNode::ObjectWithArgs(parts(&["app", "=="])),
    };
    assert_eq!(
        classify("x", &op, &[]),
        entity(StatementLocation::Operator(Operator {
            schema: s("app"),
            name: s("=="),
            sql: s("x"),
        }))
    );
    let shape = Statement::AlterOwner {
        target: ObjectType::Operator,
        relation: None,
        object: ObjectNode::List(parts(&["app", "=="])),
    };
    assert_eq!(classify("x", &shape, &[]), malformed());
    let empty = Statement::AlterOwner {
        target: ObjectType::Aggregate,
        relation: None,
        object: ObjectNode::ObjectWithArgs(vec![]),
    };
    assert_eq!(classify("x", &empty, &[]), malformed());
}

#[test]
fn owner_change_of_a_function_a_type_and_a_relation() {
    let f = Statement::AlterOwner {
        target: ObjectType::Function,
        relation: None,
        object: ObjectNode::ObjectWithArgs(parts(&["app", "f"])),
    };
    assert_eq!(
        classify("x", &f, &[trigger_function("app", "f")]),
        entity(StatementLocation::TriggerFunction(TriggerFunction {
            schema: s("app"),
            name: s("f"),
            sql: s("x"),
        }))
    );
    assert_eq!(
        classify("x", &f, &[function("app", "f")]),
        entity(StatementLocation::Function(Function { schema: s("app"), name: s("f"), sql: s("x") }))
    );
    assert_eq!(
        classify("x", &f, &[aggregate("app", "f")]),
        entity(StatementLocation::Aggregate(Aggregate { schema: s("app"), name: s("f"), sql: s("x") }))
    );
    assert_eq!(classify("x", &f, &[]), unresolved());
    let t = Statement::AlterOwner {
        target: ObjectType::Type,
        relation: None,
        object: ObjectNode::List(parts(&["app", "color"])),
    };
    assert_eq!(
        classify("x", &t, &[enum_type("app", "color")]),
        entity(StatementLocation::EnumNode(Enum { schema: s("app"), name: s("color"), sql: s("x") }))
    );
    assert_eq!(
        classify("x", &t, &[composite("app", "color")]),
        entity(StatementLocation::CompositeType(CompositeType {
            schema: s("app"),
            name: s("color"),
            sql: s("x"),
        }))
    );
    assert_eq!(classify("x", &t, &[]), unresolved());
    let wrong = Statement::AlterOwner {
        target: ObjectType::Type,
        relation: None,
        object: ObjectNode::List(parts(&["color"])),
    };
    assert_eq!(classify("x", &wrong, &[enum_type("app", "color")]), malformed());
    let r = Statement::AlterOwner {
        target: ObjectType::Table,
        relation: Some(rel("app", "v")),
        object: ObjectNode::Absent,
    };
    assert_eq!(
        classify("x", &r, &[view("app", "v")]),
        entity(StatementLocation::View(View { schema: s("app"), name: s("v"), sql: s("x") }))
    );
    assert_eq!(
        classify("x", &r, &[view("app", "v"), table("app", "v")]),
        entity(StatementLocation::Table(Table { schema: s("app"), name: s("v"), sql: s("x") }))
    );
    assert_eq!(classify("x", &r, &[]), unresolved());
    let no_relation =
        Statement::AlterOwner { target: ObjectType::Table, relation: None, object: ObjectNode::Absent };
    assert_eq!(classify("x", &no_relation, &[table("app", "v")]), malformed());
}

#[test]
fn owner_change_of_another_kind_of_object_is_unsupported() {
    for target in [ObjectType::Column, ObjectType::Sequence, ObjectType::Other] {
        let stmt = Statement::AlterOwner { target, relation: None, object: ObjectNode::Absent };
        assert_eq!(classify("x", &stmt, &[]), unsupported());
    }
}

#[test]
fn alter_sequence_owned_by_names_the_table() {
    let stmt = Statement::AlterSequence {
        sequence: Some(rel("s", "seq")),
        options: vec![OptionNode::Other, owned_by(&["s", "tbl", "id"])],
    };
    assert_eq!(
        classify("ALTER SEQUENCE s.seq OWNED BY s.tbl.id;", &stmt, &[]),
        entity(StatementLocation::Sequence(Sequence {
            table: Some(s("tbl")),
            schema: s("s"),
            name: s("seq"),
            sql: s("ALTER SEQUENCE s.seq OWNED BY s.tbl.id;"),
        }))
    );
}

#[test]
fn alter_sequence_with_another_schema_is_malformed() {
    let stmt = Statement::AlterSequence {
        sequence: Some(rel("s", "seq")),
        options: vec![owned_by(&["other", "tbl", "id"])],
    };
    assert_eq!(classify("x", &stmt, &[]), malformed());
}

#[test]
fn alter_sequence_of_another_shape() {
    let none = Statement::AlterSequence { sequence: Some(rel("s", "seq")), options: vec![] };
    assert_eq!(classify("x", &none, &[]), unsupported());
    let other_option = Statement::AlterSequence {
        sequence: Some(rel("s", "seq")),
        options: vec![OptionNode::DefElem { name: s("restart"), arg: ObjectNode::Absent }],
    };
    assert_eq!(classify("x", &other_option, &[]), unsupported());
    let absent_first = Statement::AlterSequence {
        sequence: Some(rel("s", "seq")),
        options: vec![OptionNode::Absent, owned_by(&["s", "tbl", "id"])],
    };
    assert_eq!(classify("x", &absent_first, &[]), malformed());
    let absent_after = Statement::AlterSequence {
        sequence: Some(rel("s", "seq")),
        options: vec![owned_by(&["s", "tbl", "id"]), OptionNode::Absent],
    };
    assert_eq!(
        classify("x", &absent_after, &[]),
        entity(StatementLocation::Sequence(Sequence {
            table: Some(s("tbl")),
            schema: s("s"),
            name: s("seq"),
            sql: s("x"),
        }))
    );
    let two = Statement::AlterSequence {
        sequence: Some(rel("s", "seq")),
        options: vec![owned_by(&["s", "tbl"])],
    };
    assert_eq!(classify("x", &two, &[]), malformed());
    let no_arg = Statement::AlterSequence {
        sequence: Some(rel("s", "seq")),
        options: vec![OptionNode::DefElem { name: s("owned_by"), arg: ObjectNode::Absent }],
    };
    assert_eq!(classify("x", &no_arg, &[]), malformed());
    let no_sequence =
        Statement::AlterSequence { sequence: None, options: vec![owned_by(&["s", "tbl", "id"])] };
    assert_eq!(classify("x", &no_sequence, &[]), malformed());
    let odd = Statement::AlterSequence {
        sequence: Some(rel("s", "seq")),
        options: vec![OptionNode::DefElem {
            name: s("owned_by"),
            arg: ObjectNode::List(vec![Some(s("s")), None, Some(s("id"))]),
        }],
    };
    assert_eq!(classify("x", &odd, &[]), malformed());
}

#[test]
fn grant_on_a_schema_a_sequence_a_relation_and_a_function() {
    let schema =
        Statement::Grant { target: ObjectType::Schema, objects: vec![ObjectNode::Text(s("app"))] };
    assert_eq!(
        classify("GRANT USAGE ON SCHEMA app TO me;", &schema, &[]),
        entity(StatementLocation::Schema(Schema {
            name: s("app"),
            sql: s("GRANT USAGE ON SCHEMA app TO me;"),
        }))
    );
    let seq = Statement::Grant {
        target: ObjectType::Sequence,
        objects: vec![ObjectNode::Relation(rel("app", "seq"))],
    };
    assert_eq!(
        classify("g", &seq, &[]),
        entity(StatementLocation::Sequence(Sequence {
            table: None,
            schema: s("app"),
            name: s("seq"),
            sql: s("g"),
        }))
    );
    let relation = Statement::Grant {
        target: ObjectType::Table,
        objects: vec![ObjectNode::Relation(rel("app", "users")), ObjectNode::Other],
    };
    assert_eq!(
        classify("g", &relation, &[table("app", "users")]),
        entity(StatementLocation::Table(Table { schema: s("app"), name: s("users"), sql: s("g") }))
    );
    assert_eq!(
        classify("g", &relation, &[view("app", "users")]),
        entity(StatementLocation::View(View { schema: s("app"), name: s("users"), sql: s("g") }))
    );
    assert_eq!(classify("g", &relation, &[]), unresolved());
    let f = Statement::Grant {
        target: ObjectType::Function,
        objects: vec![ObjectNode::ObjectWithArgs(parts(&["app", "f"]))],
    };
    assert_eq!(
        classify("g", &f, &[trigger_function("app", "f")]),
        entity(StatementLocation::TriggerFunction(TriggerFunction {
            schema: s("app"),
            name: s("f"),
            sql: s("g"),
        }))
    );
    assert_eq!(
        classify("g", &f, &[function("app", "f")]),
        entity(StatementLocation::Function(Function { schema: s("app"), name: s("f"), sql: s("g") }))
    );
    assert_eq!(
        classify("g", &f, &[aggregate("app", "f")]),
        entity(StatementLocation::Aggregate(Aggregate { schema: s("app"), name: s("f"), sql: s("g") }))
    );
    assert_eq!(classify("g", &f, &[view("app", "f")]), unresolved());
}

#[test]
fn grant_of_another_shape() {
    for target in [ObjectType::Schema, ObjectType::Table, ObjectType::Sequence, ObjectType::Function] {
        let none = Statement::Grant { target, objects: vec![] };
        assert_eq!(classify("g", &none, &[]), malformed());
        let other = Statement::Grant { target, objects: vec![ObjectNode::Other] };
        assert_eq!(classify("g", &other, &[]), malformed());
    }
    let one = Statement::Grant {
        target: ObjectType::Function,
        objects: vec![ObjectNode::ObjectWithArgs(parts(&["f"]))],
    };
    assert_eq!(classify("g", &one, &[function("public", "f")]), malformed());
    for target in [ObjectType::Column, ObjectType::Type, ObjectType::Aggregate, ObjectType::Operator, ObjectType::Other] {
        let stmt = Statement::Grant { target, objects: vec![ObjectNode::Text(s("x"))] };
        assert_eq!(classify("g", &stmt, &[]), unsupported());
    }
}

#[test]
fn default_privileges_go_to_the_first_schema_listed() {
    let stmt = Statement::AlterDefaultPrivileges {
        options: vec![
            OptionNode::DefElem { name: s("roles"), arg: ObjectNode::List(parts(&["me"])) },
            OptionNode::DefElem { name: s("schemas"), arg: ObjectNode::List(parts(&["app", "api"])) },
        ],
    };
    assert_eq!(
        classify("ALTER DEFAULT PRIVILEGES FOR ROLE me IN SCHEMA app, api GRANT ALL ON TABLES TO you;", &stmt, &[]),
        entity(StatementLocation::Schema(Schema {
            name: s("app"),
            sql: s("ALTER DEFAULT PRIVILEGES FOR ROLE me IN SCHEMA app, api GRANT ALL ON TABLES TO you;"),
        }))
    );
}

#[test]
fn default_privileges_without_a_schema_are_malformed() {
    let none = Statement::AlterDefaultPrivileges { options: vec![] };
    assert_eq!(classify("x", &none, &[]), malformed());
    let empty = Statement::AlterDefaultPrivileges {
        options: vec![OptionNode::DefElem { name: s("schemas"), arg: ObjectNode::List(vec![]) }],
    };
    assert_eq!(classify("x", &empty, &[]), malformed());
    let odd = Statement::AlterDefaultPrivileges {
        options: vec![OptionNode::DefElem { name: s("schemas"), arg: ObjectNode::List(vec![None]) }],
    };
    assert_eq!(classify("x", &odd, &[]), malformed());
    let shape = Statement::AlterDefaultPrivileges {
        options: vec![OptionNode::DefElem { name: s("schemas"), arg: ObjectNode::Text(s("app")) }],
    };
    assert_eq!(classify("x", &shape, &[]), malformed());
    let absent = Statement::AlterDefaultPrivileges {
        options: vec![
            OptionNode::Absent,
            OptionNode::DefElem { name: s("schemas"), arg: ObjectNode::List(parts(&["app"])) },
        ],
    };
    assert_eq!(classify("x", &absent, &[]), malformed());
}

#[test]
fn classify_into_appends_the_entity() {
    let mut catalog = vec![table("app", "users")];
    let stmt = Statement::CreateView { view: Some(rel("app", "v")) };
    assert_eq!(classify_into("CREATE VIEW app.v AS SELECT 1;", &stmt, &mut catalog), Ok(vec![]));
    assert_eq!(
        catalog,
        vec![
            table("app", "users"),
            StatementLocation::View(View {
                schema: s("app"),
                name: s("v"),
                sql: s("CREATE VIEW app.v AS SELECT 1;"),
            }),
        ]
    );
}

#[test]
fn classify_into_leaves_the_catalog_where_nothing_is_added() {
    let mut catalog = vec![table("app", "users")];
    let reset = Statement::VariableSet { reset_all: true };
    assert_eq!(classify_into("RESET ALL;", &reset, &mut catalog), Ok(vec![]));
    assert_eq!(catalog, vec![table("app", "users")]);
    assert_eq!(
        classify_into("VACUUM;", &Statement::Other, &mut catalog),
        Err(SchemaError::UnsupportedStatementKind)
    );
    assert_eq!(catalog, vec![table("app", "users")]);
    let comment = Statement::Comment {
        target: ObjectType::Table,
        object: ObjectNode::List(parts(&["app", "orders"])),
        comment: s("c"),
    };
    assert_eq!(
        classify_into("c", &comment, &mut catalog),
        Err(SchemaError::UnresolvedReference)
    );
    assert_eq!(catalog, vec![table("app", "users")]);
    let malformed = Statement::CreateTable { relation: None };
    assert_eq!(classify_into("c", &malformed, &mut catalog), Err(SchemaError::MalformedStatement));
    assert_eq!(catalog, vec![table("app", "users")]);
}

#[test]
fn classify_into_hands_back_the_statements_of_a_split() {
    let mut catalog = vec![];
    let stmt = Statement::AlterTable {
        relation: Some(rel("public", "t")),
        commands: add_constraint(constraint(ConstraintType::Check, "a", None)),
    };
    assert_eq!(
        classify_into(
            "ALTER TABLE t ADD CONSTRAINT a CHECK (x > 0), ADD CONSTRAINT b CHECK (y > 0);",
            &stmt,
            &mut catalog
        ),
        Ok(vec![
            s("ALTER TABLE t ADD CONSTRAINT a CHECK (x > 0)"),
            s("ALTER TABLE t ADD CONSTRAINT b CHECK (y > 0);"),
        ])
    );
    assert_eq!(catalog, vec![]);
}

#[test]
fn a_reference_is_resolved_against_earlier_statements_only() {
    let mut catalog = vec![];
    let comment = Statement::Comment {
        target: ObjectType::Table,
        object: ObjectNode::List(parts(&["app", "users"])),
        comment: s("c"),
    };
    assert_eq!(classify_into("c", &comment, &mut catalog), Err(SchemaError::UnresolvedReference));
    let create = Statement::CreateTable { relation: Some(rel("app", "users")) };
    assert_eq!(classify_into("CREATE TABLE app.users ();", &create, &mut catalog), Ok(vec![]));
    assert_eq!(classify_into("c", &comment, &mut catalog), Ok(vec![]));
    assert_eq!(catalog.len(), 2);
}
