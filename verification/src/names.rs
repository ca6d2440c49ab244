//! Qualified names, as the syntax tree gives them: lists of parts.

use vstd::prelude::*;
use crate::error::SchemaError;

verus! {

/// The names that a list of name parts spells, if every part is a string.
pub open spec fn names_of(parts: Seq<Option<Seq<char>>>) -> Option<Seq<Seq<char>>> {
    if forall|i: int| 0 <= i < parts.len() ==> (#[trigger] parts[i]) is Some {
        Some(Seq::new(parts.len(), |i: int| parts[i]->0))
    } else {
        None
    }
}

/// The schema and the name that a list of exactly two name parts spells.
pub open spec fn schema_and_name(parts: Seq<Option<Seq<char>>>) -> Option<(Seq<char>, Seq<char>)> {
    match names_of(parts) {
        Some(names) => if names.len() == 2 {
            Some((names[0], names[1]))
        } else {
            None
        },
        None => None,
    }
}

/// The schema that a qualified name gives: its first part where it has
/// more than one, and `public` otherwise.
pub open spec fn schema_or_default(names: Seq<Seq<char>>) -> Seq<char> {
    if names.len() > 1 {
        names[0]
    } else {
        "public"@
    }
}

/// The schema and the name that a list of name parts spells, the schema
/// being `public` where the list has the name alone.
pub open spec fn defaulted_name(parts: Seq<Option<Seq<char>>>) -> Option<(Seq<char>, Seq<char>)> {
    match names_of(parts) {
        Some(names) => if names.len() > 0 {
            Some((schema_or_default(names), names.last()))
        } else {
            None
        },
        None => None,
    }
}

/// The string that a name part holds.
pub fn get_sval(n: &Option<String>) -> (r: Result<String, SchemaError>)
    ensures
        match r {
            Ok(s) => n.deep_view() == Some(s@),
            Err(e) => e == SchemaError::MalformedStatement && n is None,
        },
{
    match n {
        Some(s) => Ok(s.clone()),
        None => Err(SchemaError::MalformedStatement),
    }
}

/// The names that a list of name parts spells.
pub fn extract_names(items: &Vec<Option<String>>) -> (r: Result<Vec<String>, SchemaError>)
    ensures
        match r {
            Ok(names) => names_of(items.deep_view()) == Some(names.deep_view()),
            Err(e) => e == SchemaError::MalformedStatement && names_of(items.deep_view()) is None,
        },
{
    let ghost parts = items.deep_view();
    let mut names: Vec<String> = Vec::new();
    let mut i: usize = 0;
    while i < items.len()
        invariant
            i <= items.len(),
            parts == items.deep_view(),
            names.len() == i,
            forall|k: int| 0 <= k < i ==> (#[trigger] parts[k]) == Some(names[k]@),
        decreases items.len() - i,
    {
        assert(parts[i as int] == items[i as int].deep_view());
        match get_sval(&items[i]) {
            Ok(s) => names.push(s),
            Err(e) => {
                return Err(e);
            },
        }
        i += 1;
    }
    assert(names.deep_view() =~= Seq::new(parts.len(), |i: int| parts[i]->0));
    Ok(names)
}

/// Checks that a list of names has exactly `expected` entries.
pub fn validate_item_count(items: &[String], expected: usize) -> (r: Result<(), SchemaError>)
    ensures
        r is Ok <==> items.len() == expected,
        r is Err ==> r == Err::<(), SchemaError>(SchemaError::MalformedStatement),
{
    if items.len() != expected {
        Err(SchemaError::MalformedStatement)
    } else {
        Ok(())
    }
}

/// The schema and the name that a list of exactly two names gives.
pub fn extract_schema_and_name(items: &[String]) -> (r: Result<(&str, &str), SchemaError>)
    ensures
        match r {
            Ok((schema, name)) => items.len() == 2 && schema@ == items[0]@ && name@ == items[1]@,
            Err(e) => e == SchemaError::MalformedStatement && items.len() != 2,
        },
{
    match validate_item_count(items, 2) {
        Ok(_) => Ok((items[0].as_str(), items[1].as_str())),
        Err(e) => Err(e),
    }
}

/// The schema that a qualified name gives: its first part where it has
/// more than one, and `public` otherwise.
pub fn get_schema_or_default(names: &[String]) -> (r: &str)
    ensures
        r@ == schema_or_default(names.deep_view()),
{
    if names.len() > 1 {
        names[0].as_str()
    } else {
        "public"
    }
}

/// The schema and the name that a list of exactly two name parts spells.
pub fn qualified_pair(parts: &Vec<Option<String>>) -> (r: Result<(String, String), SchemaError>)
    ensures
        match r {
            Ok((schema, name)) => schema_and_name(parts.deep_view()) == Some((schema@, name@)),
            Err(e) => e == SchemaError::MalformedStatement && schema_and_name(parts.deep_view())
                is None,
        },
{
    let names = extract_names(parts)?;
    let (schema, name) = extract_schema_and_name(names.as_slice())?;
    Ok((String::from_str(schema), String::from_str(name)))
}

/// The schema and the name that a list of name parts spells, the schema
/// being `public` where the list has the name alone.
pub fn qualified_or_public(parts: &Vec<Option<String>>) -> (r: Result<
    (String, String),
    SchemaError,
>)
    ensures
        match r {
            Ok((schema, name)) => defaulted_name(parts.deep_view()) == Some((schema@, name@)),
            Err(e) => e == SchemaError::MalformedStatement && defaulted_name(parts.deep_view())
                is None,
        },
{
    let names = extract_names(parts)?;
    if names.len() == 0 {
        return Err(SchemaError::MalformedStatement);
    }
    let schema = String::from_str(get_schema_or_default(names.as_slice()));
    let name = names[names.len() - 1].clone();
    Ok((schema, name))
}

} // verus!
