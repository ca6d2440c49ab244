//! Text primitives over sequences of characters: searching, splitting,
//! trimming and escaping, each with its mathematical statement.

use vstd::prelude::*;
use vstd::std_specs::iter::IteratorSpec;

verus! {

/// `String::push` of the standard library: the character is appended at the
/// end and nothing else changes. Believed, not proved.
pub assume_specification[ String::push ](s: &mut String, c: char)
    ensures
        final(s)@ == old(s)@.push(c),
;

/// Whether a character has the Unicode property White_Space.
pub uninterp spec fn white_space(c: char) -> bool;

/// `char::is_whitespace` of the standard library: it decides the Unicode
/// property White_Space, a function of the character alone. Believed, not
/// proved.
pub assume_specification[ char::is_whitespace ](c: char) -> (r: bool)
    ensures
        r == white_space(c),
;

/// `pat` stands in `s` at position `i`.
pub open spec fn occurs_at(s: Seq<char>, pat: Seq<char>, i: int) -> bool {
    0 <= i && i + pat.len() <= s.len() && s.subrange(i, i + pat.len()) == pat
}

/// `pat` stands somewhere in `s`.
pub open spec fn contains(s: Seq<char>, pat: Seq<char>) -> bool {
    exists|i: int| occurs_at(s, pat, i)
}

/// The first position at or after `from` where `pat` stands in `s`.
pub open spec fn find_from(s: Seq<char>, pat: Seq<char>, from: int) -> Option<int>
    decreases s.len() - from + 1,
{
    if from < 0 || from + pat.len() > s.len() {
        None
    } else if occurs_at(s, pat, from) {
        Some(from)
    } else {
        find_from(s, pat, from + 1)
    }
}

/// The first position where `pat` stands in `s`.
pub open spec fn find(s: Seq<char>, pat: Seq<char>) -> Option<int> {
    find_from(s, pat, 0)
}

/// The pieces of `s[from..]` that lie between the occurrences of `sep`,
/// the occurrences taken from the left and not overlapping: one piece more
/// than there are occurrences. An empty `sep` separates nothing.
pub open spec fn split_from(s: Seq<char>, sep: Seq<char>, from: int) -> Seq<Seq<char>>
    decreases s.len() - from + 1,
{
    match find_from(s, sep, from) {
        Some(i) => if sep.len() > 0 && from <= i && i + sep.len() <= s.len() {
            seq![s.subrange(from, i)] + split_from(s, sep, i + sep.len())
        } else {
            seq![s.subrange(from, s.len() as int)]
        },
        None => seq![s.subrange(from, s.len() as int)],
    }
}

/// The pieces of `s` that lie between the occurrences of `sep`.
pub open spec fn split(s: Seq<char>, sep: Seq<char>) -> Seq<Seq<char>> {
    split_from(s, sep, 0)
}

/// `s` without the white space at its end.
pub open spec fn trim_end(s: Seq<char>) -> Seq<char>
    decreases s.len(),
{
    if s.len() > 0 && white_space(s.last()) {
        trim_end(s.drop_last())
    } else {
        s
    }
}

/// `s` without the run of `c` at its end.
pub open spec fn trim_end_char(s: Seq<char>, c: char) -> Seq<char>
    decreases s.len(),
{
    if s.len() > 0 && s.last() == c {
        trim_end_char(s.drop_last(), c)
    } else {
        s
    }
}

/// `s` with every single quote doubled.
pub open spec fn escape_quotes(s: Seq<char>) -> Seq<char>
    decreases s.len(),
{
    if s.len() == 0 {
        s
    } else if s.last() == '\'' {
        escape_quotes(s.drop_last()).push('\'').push('\'')
    } else {
        escape_quotes(s.drop_last()).push(s.last())
    }
}

/// `find_from` gives the least position from `from` on at which `pat`
/// stands, and none exactly when there is no such position.
pub proof fn lemma_find_from(s: Seq<char>, pat: Seq<char>, from: int)
    requires
        0 <= from,
    ensures
        match find_from(s, pat, from) {
            Some(i) => from <= i && occurs_at(s, pat, i) && forall|j: int|
                from <= j < i ==> !occurs_at(s, pat, j),
            None => forall|j: int| from <= j ==> !occurs_at(s, pat, j),
        },
    decreases s.len() - from + 1,
{
    if from + pat.len() > s.len() {
    } else if occurs_at(s, pat, from) {
    } else {
        lemma_find_from(s, pat, from + 1);
    }
}

/// `find` is `Some` exactly when `pat` stands somewhere in `s`.
pub proof fn lemma_find_contains(s: Seq<char>, pat: Seq<char>)
    ensures
        find(s, pat) is Some <==> contains(s, pat),
{
    lemma_find_from(s, pat, 0);
    if contains(s, pat) {
        let i = choose|i: int| occurs_at(s, pat, i);
        assert(occurs_at(s, pat, i));
    }
}

/// No piece of a split holds the separator.
pub proof fn lemma_pieces_hold_no_separator(
    s: Seq<char>,
    sep: Seq<char>,
    from: int,
    k: int,
    j: int,
)
    requires
        0 <= from <= s.len(),
        sep.len() > 0,
        0 <= k < split_from(s, sep, from).len(),
    ensures
        !occurs_at(split_from(s, sep, from)[k], sep, j),
    decreases s.len() - from + 1,
{
    lemma_find_from(s, sep, from);
    match find_from(s, sep, from) {
        Some(i) => {
            let piece = s.subrange(from, i);
            if k == 0 {
                if occurs_at(piece, sep, j) {
                    assert(s.subrange(from + j, from + j + sep.len()) =~= piece.subrange(
                        j,
                        j + sep.len(),
                    ));
                    assert(occurs_at(s, sep, from + j));
                }
            } else {
                lemma_pieces_hold_no_separator(s, sep, i + sep.len(), k - 1, j);
            }
        },
        None => {
            let piece = s.subrange(from, s.len() as int);
            if occurs_at(piece, sep, j) {
                assert(s.subrange(from + j, from + j + sep.len()) =~= piece.subrange(
                    j,
                    j + sep.len(),
                ));
                assert(occurs_at(s, sep, from + j));
            }
        },
    }
}

/// What is left of a text when white space is taken from its end stands at
/// the start of the text.
pub proof fn lemma_trim_end_is_prefix(s: Seq<char>)
    ensures
        trim_end(s).is_prefix_of(s),
    decreases s.len(),
{
    if s.len() > 0 && white_space(s.last()) {
        lemma_trim_end_is_prefix(s.drop_last());
    }
}

/// What is left of a text when a run of one character is taken from its
/// end stands at the start of the text.
pub proof fn lemma_trim_end_char_is_prefix(s: Seq<char>, c: char)
    ensures
        trim_end_char(s, c).is_prefix_of(s),
    decreases s.len(),
{
    if s.len() > 0 && s.last() == c {
        lemma_trim_end_char_is_prefix(s.drop_last(), c);
    }
}

/// The characters of a string, in order.
pub fn to_chars(s: &str) -> (v: Vec<char>)
    ensures
        v@ == s@,
{
    let mut v: Vec<char> = Vec::new();
    for c in it: s.chars()
        invariant
            v@ == it.seq().take(it.index() as int),
            it.seq() == s@,
    {
        v.push(c);
    }
    v
}

/// The string made of the characters `v[from..to]`.
pub fn from_chars(v: &Vec<char>, from: usize, to: usize) -> (s: String)
    requires
        from <= to <= v.len(),
    ensures
        s@ == v@.subrange(from as int, to as int),
{
    let mut s = String::new();
    let mut i: usize = from;
    while i < to
        invariant
            from <= i <= to <= v.len(),
            s@ == v@.subrange(from as int, i as int),
        decreases to - i,
    {
        s.push(v[i]);
        i += 1;
    }
    s
}

/// The characters `v[from..to]`.
pub fn slice_chars(v: &Vec<char>, from: usize, to: usize) -> (r: Vec<char>)
    requires
        from <= to <= v.len(),
    ensures
        r@ == v@.subrange(from as int, to as int),
        r.deep_view() == v@.subrange(from as int, to as int),
{
    let mut r: Vec<char> = Vec::new();
    let mut i: usize = from;
    while i < to
        invariant
            from <= i <= to <= v.len(),
            r@ == v@.subrange(from as int, i as int),
        decreases to - i,
    {
        r.push(v[i]);
        i += 1;
    }
    assert(r.deep_view() =~= r@);
    r
}

/// Whether two strings hold the same characters.
pub fn str_eq(a: &str, b: &str) -> (r: bool)
    ensures
        r == (a@ == b@),
{
    let mut x = a.chars();
    let mut y = b.chars();
    let ghost mut n: int = 0;
    loop
        invariant
            0 <= n <= a@.len(),
            n <= b@.len(),
            a@.take(n) == b@.take(n),
            x.remaining() == a@.skip(n),
            y.remaining() == b@.skip(n),
            x.obeys_prophetic_iter_laws(),
            y.obeys_prophetic_iter_laws(),
        decreases a@.len() - n,
    {
        let cx = x.next();
        let cy = y.next();
        match (cx, cy) {
            (Some(p), Some(q)) => {
                if p != q {
                    assert(a@[n] != b@[n]);
                    return false;
                }
                proof {
                    assert(a@.take(n + 1) =~= a@.take(n).push(a@[n]));
                    assert(b@.take(n + 1) =~= b@.take(n).push(b@[n]));
                    assert(a@.skip(n).drop_first() =~= a@.skip(n + 1));
                    assert(b@.skip(n).drop_first() =~= b@.skip(n + 1));
                    n = n + 1;
                }
            },
            (None, None) => {
                proof {
                    assert(a@ =~= a@.take(n));
                    assert(b@ =~= b@.take(n));
                }
                return true;
            },
            _ => {
                return false;
            },
        }
    }
}

/// The last character of a string, if it has one.
pub fn last_char(s: &str) -> (r: Option<char>)
    ensures
        r == (if s@.len() > 0 {
            Some(s@.last())
        } else {
            None
        }),
{
    let mut last: Option<char> = None;
    for c in it: s.chars()
        invariant
            it.seq() == s@,
            last == (if it.index() > 0 {
                Some(s@[it.index() - 1])
            } else {
                None
            }),
    {
        last = Some(c);
    }
    last
}

/// Whether `pat` stands in `s` at position `i`.
pub fn matches_at(s: &Vec<char>, pat: &Vec<char>, i: usize) -> (r: bool)
    ensures
        r == occurs_at(s@, pat@, i as int),
{
    if pat.len() > s.len() || i > s.len() - pat.len() {
        return false;
    }
    let mut k: usize = 0;
    while k < pat.len()
        invariant
            k <= pat.len(),
            i + pat.len() <= s.len(),
            forall|j: int| 0 <= j < k ==> s@[i + j] == pat@[j],
        decreases pat.len() - k,
    {
        if s[i + k] != pat[k] {
            assert(s@.subrange(i as int, i + pat.len())[k as int] == s@[i + k]);
            return false;
        }
        k += 1;
    }
    assert(s@.subrange(i as int, i + pat.len()) =~= pat@);
    true
}

/// The first position at or after `from` where `pat` stands in `s`.
pub fn find_chars(s: &Vec<char>, pat: &Vec<char>, from: usize) -> (r: Option<usize>)
    ensures
        match r {
            Some(i) => find_from(s@, pat@, from as int) == Some(i as int),
            None => find_from(s@, pat@, from as int) is None,
        },
{
    if pat.len() > s.len() || from > s.len() - pat.len() {
        return None;
    }
    let last: usize = s.len() - pat.len();
    let mut i: usize = from;
    loop
        invariant
            from <= i <= last,
            last == s.len() - pat.len(),
            find_from(s@, pat@, from as int) == find_from(s@, pat@, i as int),
        decreases last - i,
    {
        if matches_at(s, pat, i) {
            return Some(i);
        }
        if i == last {
            assert(find_from(s@, pat@, i + 1) is None);
            return None;
        }
        i += 1;
    }
}

/// Whether `needle` stands somewhere in `hay`.
pub fn contains_str(hay: &str, needle: &str) -> (r: bool)
    ensures
        r == contains(hay@, needle@),
{
    let h = to_chars(hay);
    let n = to_chars(needle);
    proof {
        lemma_find_contains(hay@, needle@);
    }
    find_chars(&h, &n, 0).is_some()
}

/// The pieces of `s[from..]` that lie between the occurrences of `sep`.
pub fn split_chars(s: &Vec<char>, sep: &Vec<char>, from: usize) -> (pieces: Vec<Vec<char>>)
    requires
        from <= s.len(),
    ensures
        pieces.deep_view() == split_from(s@, sep@, from as int),
{
    let mut pieces: Vec<Vec<char>> = Vec::new();
    let mut pos: usize = from;
    loop
        invariant
            from <= pos <= s.len(),
            split_from(s@, sep@, from as int) == pieces.deep_view() + split_from(
                s@,
                sep@,
                pos as int,
            ),
        decreases s.len() - pos,
    {
        let ghost before = pieces.deep_view();
        let found = if sep.len() > 0 {
            find_chars(s, sep, pos)
        } else {
            None
        };
        proof {
            lemma_find_from(s@, sep@, pos as int);
        }
        match found {
            Some(i) => {
                pieces.push(slice_chars(s, pos, i));
                proof {
                    let piece = s@.subrange(pos as int, i as int);
                    assert(pieces.deep_view() =~= before.push(piece));
                    assert(before + (seq![piece] + split_from(s@, sep@, i + sep.len()))
                        =~= before.push(piece) + split_from(s@, sep@, i + sep.len()));
                }
                pos = i + sep.len();
            },
            None => {
                pieces.push(slice_chars(s, pos, s.len()));
                proof {
                    let piece = s@.subrange(pos as int, s.len() as int);
                    assert(pieces.deep_view() =~= before.push(piece));
                    assert(before + seq![piece] =~= before.push(piece));
                }
                return pieces;
            },
        }
    }
}

/// The length of `v` without the white space at its end.
pub fn trimmed_len(v: &Vec<char>) -> (n: usize)
    ensures
        n <= v.len(),
        v@.take(n as int) == trim_end(v@),
{
    let mut n: usize = v.len();
    assert(v@.take(n as int) =~= v@);
    while n > 0 && v[n - 1].is_whitespace()
        invariant
            n <= v.len(),
            trim_end(v@) == trim_end(v@.take(n as int)),
        decreases n,
    {
        assert(v@.take(n as int).drop_last() =~= v@.take(n - 1));
        n -= 1;
    }
    n
}

/// The length of `v[..len]` without the run of `c` at its end.
pub fn trimmed_len_char(v: &Vec<char>, len: usize, c: char) -> (n: usize)
    requires
        len <= v.len(),
    ensures
        n <= len,
        v@.take(n as int) == trim_end_char(v@.take(len as int), c),
{
    let mut n: usize = len;
    while n > 0 && v[n - 1] == c
        invariant
            n <= len <= v.len(),
            trim_end_char(v@.take(len as int), c) == trim_end_char(v@.take(n as int), c),
        decreases n,
    {
        assert(v@.take(n as int).drop_last() =~= v@.take(n - 1));
        n -= 1;
    }
    n
}

/// `s` with every single quote doubled.
pub fn escape_single_quotes(s: &str) -> (r: String)
    ensures
        r@ == escape_quotes(s@),
{
    let mut r = String::new();
    for c in it: s.chars()
        invariant
            it.seq() == s@,
            r@ == escape_quotes(s@.take(it.index() as int)),
    {
        proof {
            let k = it.index() as int;
            assert(s@.take(k + 1).drop_last() =~= s@.take(k));
        }
        if c == '\'' {
            r.push('\'');
            r.push('\'');
        } else {
            r.push(c);
        }
    }
    assert(s@.take(s@.len() as int) =~= s@);
    r
}

} // verus!
