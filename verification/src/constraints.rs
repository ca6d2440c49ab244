//! An `ALTER TABLE` statement that adds several constraints, taken apart
//! into one statement for each: a constraint is filed on its own, so each
//! has to be classified on its own.

use vstd::prelude::*;
use crate::text::{
    find, find_chars, find_from, from_chars, lemma_find_from, lemma_pieces_hold_no_separator,
    lemma_trim_end_char_is_prefix, lemma_trim_end_is_prefix, occurs_at, split, split_chars,
    split_from, to_chars, trim_end, trim_end_char, trimmed_len, trimmed_len_char,
};

verus! {

/// The words that open a constraint clause.
pub open spec fn add_constraint() -> Seq<char> {
    "ADD CONSTRAINT"@
}

/// The words that open the statement.
pub open spec fn alter_table() -> Seq<char> {
    "ALTER TABLE"@
}

/// The number of constraint clauses that the text of a statement holds.
pub open spec fn constraint_clauses(sql: Seq<char>) -> nat {
    (split(sql, add_constraint()).len() - 1) as nat
}

/// The statement that adds one constraint: the head of the statement,
/// the opening words of a clause, and the clause `piece` without the white
/// space and then the commas at its end.
pub open spec fn single_constraint(head: Seq<char>, piece: Seq<char>) -> Seq<char> {
    head + add_constraint() + trim_end_char(trim_end(piece), ',')
}

/// One statement for each piece that is not empty, in the order of the
/// pieces.
pub open spec fn rebuild(head: Seq<char>, pieces: Seq<Seq<char>>) -> Seq<Seq<char>>
    decreases pieces.len(),
{
    if pieces.len() == 0 {
        Seq::empty()
    } else if pieces.last().len() == 0 {
        rebuild(head, pieces.drop_last())
    } else {
        rebuild(head, pieces.drop_last()).push(single_constraint(head, pieces.last()))
    }
}

/// The single-constraint statements that `sql` stands for. The head runs
/// from the first `ALTER TABLE` to the first `ADD CONSTRAINT`; the clauses
/// are what lies between the occurrences of `ADD CONSTRAINT` from the
/// first one on. `None` where either is not in the text, or where the
/// first `ADD CONSTRAINT` comes before the first `ALTER TABLE`.
pub open spec fn split_constraints(sql: Seq<char>) -> Option<Seq<Seq<char>>> {
    match (find(sql, add_constraint()), find(sql, alter_table())) {
        (Some(a), Some(t)) => if t <= a {
            Some(rebuild(sql.subrange(t, a), split_from(sql, add_constraint(), a)))
        } else {
            None
        },
        _ => None,
    }
}

/// The number of constraint clauses that the text of a statement holds.
pub fn count_constraint_clauses(sql: &str) -> (n: usize)
    ensures
        n == constraint_clauses(sql@),
{
    let text = to_chars(sql);
    let sep = to_chars("ADD CONSTRAINT");
    let pieces = split_chars(&text, &sep, 0);
    proof {
        lemma_split_nonempty(sql@, add_constraint(), 0);
    }
    pieces.len() - 1
}

/// A split has at least one piece.
proof fn lemma_split_nonempty(s: Seq<char>, sep: Seq<char>, from: int)
    ensures
        split_from(s, sep, from).len() >= 1,
{
}

/// The single-constraint statements that `sql` stands for, if it has the
/// shape of an `ALTER TABLE` statement that adds constraints.
pub fn split_add_constraints(sql: &str) -> (r: Option<Vec<String>>)
    ensures
        r.deep_view() == split_constraints(sql@),
{
    let text = to_chars(sql);
    let sep = to_chars("ADD CONSTRAINT");
    let opening = to_chars("ALTER TABLE");
    let first = match find_chars(&text, &sep, 0) {
        Some(a) => a,
        None => { return None; },
    };
    let start = match find_chars(&text, &opening, 0) {
        Some(t) => t,
        None => { return None; },
    };
    if start > first {
        return None;
    }
    proof {
        lemma_find_from(text@, sep@, 0);
    }
    let head = from_chars(&text, start, first);
    let pieces = split_chars(&text, &sep, first);
    let mut statements: Vec<String> = Vec::new();
    let mut k: usize = 0;
    while k < pieces.len()
        invariant
            k <= pieces.len(),
            head@ == sql@.subrange(start as int, first as int),
            statements.deep_view() == rebuild(head@, pieces.deep_view().take(k as int)),
        decreases pieces.len() - k,
    {
        let piece = &pieces[k];
        let ghost before = statements.deep_view();
        proof {
            let all = pieces.deep_view();
            assert(all.take(k + 1).drop_last() =~= all.take(k as int));
            assert(all.take(k + 1).last() == piece@);
            assert(piece.deep_view() =~= piece@);
        }
        if piece.len() > 0 {
            let n = trimmed_len(piece);
            let m = trimmed_len_char(piece, n, ',');
            let mut statement = head.clone();
            statement.append("ADD CONSTRAINT");
            statement.append(from_chars(piece, 0, m).as_str());
            proof {
                assert(piece@.subrange(0, m as int) =~= piece@.take(m as int));
            }
            statements.push(statement);
            assert(statements.deep_view() =~= before.push(statement@));
        }
        k += 1;
    }
    assert(pieces.deep_view().take(pieces.len() as int) =~= pieces.deep_view());
    Some(statements)
}

/// Where `pat` stands at `at` and nowhere between `from` and `at`, `at` is
/// the first position from `from` on.
proof fn lemma_find_from_is(s: Seq<char>, pat: Seq<char>, from: int, at: int)
    requires
        0 <= from <= at,
        occurs_at(s, pat, at),
        forall|j: int| from <= j < at ==> !occurs_at(s, pat, j),
    ensures
        find_from(s, pat, from) == Some(at),
{
    lemma_find_from(s, pat, from);
}

/// Where `pat` stands nowhere from `from` on, there is no first position.
proof fn lemma_find_from_none(s: Seq<char>, pat: Seq<char>, from: int)
    requires
        0 <= from,
        forall|j: int| from <= j ==> !occurs_at(s, pat, j),
    ensures
        find_from(s, pat, from) is None,
{
    lemma_find_from(s, pat, from);
}

/// Every statement that `rebuild` gives is made of the head and of one of
/// the pieces.
proof fn lemma_rebuild_from_a_piece(head: Seq<char>, pieces: Seq<Seq<char>>, k: int)
    requires
        0 <= k < rebuild(head, pieces).len(),
    ensures
        exists|m: int|
            0 <= m < pieces.len() && rebuild(head, pieces)[k] == single_constraint(
                head,
                #[trigger] pieces[m],
            ),
    decreases pieces.len(),
{
    let rest = pieces.drop_last();
    if pieces.last().len() > 0 && k == rebuild(head, rest).len() {
        assert(pieces[pieces.len() - 1] == pieces.last());
    } else {
        lemma_rebuild_from_a_piece(head, rest, k);
        let m = choose|m: int|
            0 <= m < rest.len() && rebuild(head, rest)[k] == single_constraint(
                head,
                #[trigger] rest[m],
            );
        assert(pieces[m] == rest[m]);
    }
}

/// A text in which the separator stands once, between `head` and `body`,
/// splits in two.
proof fn lemma_split_in_two(head: Seq<char>, sep: Seq<char>, body: Seq<char>)
    requires
        sep.len() > 0,
        forall|j: int| 0 <= j < head.len() ==> !occurs_at(head + sep + body, sep, j),
        forall|j: int| head.len() + sep.len() <= j ==> !occurs_at(head + sep + body, sep, j),
    ensures
        split(head + sep + body, sep).len() == 2,
{
    let statement = head + sep + body;
    let n = head.len() as int;
    assert(statement.subrange(n, n + sep.len()) =~= sep);
    lemma_find_from_is(statement, sep, 0, n);
    lemma_find_from_none(statement, sep, n + sep.len());
    assert(split_from(statement, sep, n + sep.len()).len() == 1);
}

/// The opening words of a clause do not stand in a statement that
/// `single_constraint` makes before the place where it puts them: the
/// head ends where they first stand in the text it is cut from.
proof fn lemma_head_holds_no_clause(sql: Seq<char>, t: int, a: int, body: Seq<char>, j: int)
    requires
        0 <= t <= a,
        find(sql, add_constraint()) == Some(a),
        0 <= j < a - t,
    ensures
        !occurs_at(sql.subrange(t, a) + add_constraint() + body, add_constraint(), j),
{
    let sep = add_constraint();
    let statement = sql.subrange(t, a) + sep + body;
    lemma_find_from(sql, sep, 0);
    if occurs_at(statement, sep, j) {
        assert(sql.subrange(t + j, t + j + sep.len()) =~= statement.subrange(j, j + sep.len()));
        assert(occurs_at(sql, sep, t + j));
    }
}

/// The opening words of a clause do not stand in a statement that
/// `single_constraint` makes after the place where it puts them: the
/// clause is cut from a piece of a split.
proof fn lemma_body_holds_no_clause(
    head: Seq<char>,
    sql: Seq<char>,
    from: int,
    m: int,
    j: int,
)
    requires
        0 <= from <= sql.len(),
        add_constraint().len() > 0,
        0 <= m < split_from(sql, add_constraint(), from).len(),
        head.len() + add_constraint().len() <= j,
    ensures
        !occurs_at(
            single_constraint(head, split_from(sql, add_constraint(), from)[m]),
            add_constraint(),
            j,
        ),
{
    let sep = add_constraint();
    let piece = split_from(sql, sep, from)[m];
    let body = trim_end_char(trim_end(piece), ',');
    lemma_trim_end_is_prefix(piece);
    lemma_trim_end_char_is_prefix(trim_end(piece), ',');
    let statement = head + sep + body;
    if occurs_at(statement, sep, j) {
        let i = j - head.len() - sep.len();
        assert(piece.subrange(i, i + sep.len()) =~= statement.subrange(j, j + sep.len()));
        assert(occurs_at(piece, sep, i));
        lemma_pieces_hold_no_separator(sql, sep, from, m, i);
    }
}

/// The opening words of a clause are not empty.
proof fn lemma_opening_words()
    ensures
        add_constraint().len() > 0,
{
    reveal_strlit("ADD CONSTRAINT");
}

/// A statement that adds several constraints is taken apart once: each of
/// the statements that take its place holds one constraint clause, and is
/// classified as it stands.
pub proof fn lemma_split_statement_has_one_clause(sql: Seq<char>, k: int)
    requires
        split_constraints(sql) is Some,
        0 <= k < split_constraints(sql)->0.len(),
    ensures
        constraint_clauses(split_constraints(sql)->0[k]) == 1,
{
    lemma_opening_words();
    let sep = add_constraint();
    let a = find(sql, sep)->0;
    let t = find(sql, alter_table())->0;
    lemma_find_from(sql, sep, 0);
    lemma_find_from(sql, alter_table(), 0);
    let head = sql.subrange(t, a);
    let pieces = split_from(sql, sep, a);
    lemma_rebuild_from_a_piece(head, pieces, k);
    let m = choose|m: int|
        0 <= m < pieces.len() && rebuild(head, pieces)[k] == single_constraint(
            head,
            #[trigger] pieces[m],
        );
    let body = trim_end_char(trim_end(pieces[m]), ',');
    assert forall|j: int| 0 <= j < head.len() implies !occurs_at(head + sep + body, sep, j) by {
        lemma_head_holds_no_clause(sql, t, a, body, j);
    }
    assert forall|j: int| head.len() + sep.len() <= j implies !occurs_at(
        head + sep + body,
        sep,
        j,
    ) by {
        lemma_body_holds_no_clause(head, sql, a, m, j);
    }
    lemma_split_in_two(head, sep, body);
}

} // verus!
