//! Queries that tantivy's parser can be given.
//!
//! The parser fails on a star that stands loosely behind a sign, and takes time and stack that
//! grow with the nesting of a query.
use vstd::prelude::*;

verus! {

/// How deep groups in parentheses may be nested. Each level doubles the work of the parser.
pub const MAX_GROUPS: usize = 16;

/// How many negations a query may have. Each may take stack for all that follow it.
pub const MAX_NEGATIONS: usize = 100;

/// A blank.
pub open spec fn blank(c: char) -> bool {
    c == ' ' || c == '\t' || c == '\r' || c == '\n'
}

/// A sign that makes a part of a query required or excluded.
pub open spec fn sign(c: char) -> bool {
    c == '+' || c == '-'
}

/// A character behind which a part of a query can begin. Behind any other a sign belongs to
/// the word that it stands in.
pub open spec fn ends_part(c: char) -> bool {
    blank(c) || c == '(' || c == ')' || c == '*' || c == '"' || c == '\'' || c == ']' || c == '}'
        || '0' <= c <= '9'
}

/// Nothing in the query can make a double quote mean anything but the start or the end of a
/// phrase.
pub open spec fn has_plain_quotes(query: Seq<char>) -> bool {
    forall|i: int| 0 <= i < query.len() ==> #[trigger] query[i] != '\'' && query[i] != '\\'
}

/// The number of double quotes among the first `n` characters.
pub open spec fn quotes_before(query: Seq<char>, n: int) -> nat
    decreases n,
{
    if n <= 0 {
        0
    } else {
        quotes_before(query, n - 1) + if query[n - 1] == '"' {
            1nat
        } else {
            0
        }
    }
}

/// The character at `i` is certainly inside a phrase.
pub open spec fn in_phrase(query: Seq<char>, i: int) -> bool {
    has_plain_quotes(query) && quotes_before(query, i) % 2 == 1
}

/// The character at `i` may be a sign in front of a part of the query.
pub open spec fn signs_part(query: Seq<char>, i: int) -> bool {
    &&& sign(query[i])
    &&& i == 0 || ends_part(query[i - 1])
    &&& !in_phrase(query, i)
}

/// The first `n` characters end in a sign in front of a part, and one or more blanks.
pub open spec fn ends_in_loose_sign(query: Seq<char>, n: int) -> bool {
    exists|i: int|
        0 <= i < n - 1 && #[trigger] signs_part(query, i) && forall|j: int|
            i < j < n ==> blank(#[trigger] query[j])
}

/// A star stands behind a sign, with one or more blanks between the two, and the sign may be
/// in front of a part of the query.
pub open spec fn has_loose_star(query: Seq<char>) -> bool {
    exists|k: int|
        0 <= k < query.len() && #[trigger] query[k] == '*' && ends_in_loose_sign(query, k)
}

/// How many groups are open after the first `n` characters. Where it is not certain what is a
/// phrase, no group counts as closed.
pub open spec fn open_groups(query: Seq<char>, n: int) -> nat
    decreases n,
{
    if n <= 0 {
        0
    } else {
        let before = open_groups(query, n - 1);
        if in_phrase(query, n - 1) {
            before
        } else if query[n - 1] == '(' {
            before + 1
        } else if query[n - 1] == ')' && has_plain_quotes(query) && before > 0 {
            (before - 1) as nat
        } else {
            before
        }
    }
}

/// At `i` stands the word that negates what follows it.
pub open spec fn negates(query: Seq<char>, i: int) -> bool {
    &&& i + 3 < query.len()
    &&& query[i] == 'N'
    &&& query[i + 1] == 'O'
    &&& query[i + 2] == 'T'
    &&& blank(query[i + 3])
}

/// The number of negations that begin among the first `n` characters.
pub open spec fn negations(query: Seq<char>, n: int) -> nat
    decreases n,
{
    if n <= 0 {
        0
    } else {
        negations(query, n - 1) + if negates(query, n - 1) {
            1nat
        } else {
            0
        }
    }
}

/// The query has too many groups inside one another, or too many negations.
pub open spec fn nests_deeply(query: Seq<char>) -> bool {
    ||| exists|n: int| 0 <= n <= query.len() && #[trigger] open_groups(query, n) > MAX_GROUPS
    ||| negations(query, query.len() as int) > MAX_NEGATIONS
}

/// Whether double quotes in the query can only mean phrases.
fn finds_plain_quotes(query: &str) -> (plain: bool)
    ensures
        plain == has_plain_quotes(query@),
{
    let len: usize = query.unicode_len();
    let mut n: usize = 0;
    while n < len
        invariant
            len == query@.len(),
            n <= len,
            forall|i: int| 0 <= i < n ==> #[trigger] query@[i] != '\'' && query@[i] != '\\',
        decreases len - n,
    {
        let c = query.get_char(n);
        if c == '\'' || c == '\\' {
            return false;
        }
        n += 1;
    }
    true
}

/// Whether a character is a blank.
fn is_blank(c: char) -> (found: bool)
    ensures
        found == blank(c),
{
    c == ' ' || c == '\t' || c == '\r' || c == '\n'
}

/// Whether a part of a query can begin behind a character.
fn is_end_of_part(c: char) -> (found: bool)
    ensures
        found == ends_part(c),
{
    is_blank(c) || c == '(' || c == ')' || c == '*' || c == '"' || c == '\'' || c == ']' || c == '}'
        || ('0' <= c && c <= '9')
}

/// Whether a star stands loosely behind a sign in the query.
pub fn finds_loose_star(query: &str) -> (found: bool)
    ensures
        found == has_loose_star(query@),
{
    let plain = finds_plain_quotes(query);
    let len: usize = query.unicode_len();
    let mut quoted: bool = false;
    let mut begins: bool = true;
    let mut signed: bool = false;
    let mut loose: bool = false;
    let mut n: usize = 0;
    while n < len
        invariant
            len == query@.len(),
            n <= len,
            plain == has_plain_quotes(query@),
            quoted == in_phrase(query@, n as int),
            begins == (n == 0 || ends_part(query@[n - 1])),
            signed == (n > 0 && signs_part(query@, n - 1)),
            loose == ends_in_loose_sign(query@, n as int),
            forall|k: int| 0 <= k < n && #[trigger] query@[k] == '*' ==> !ends_in_loose_sign(
                query@,
                k,
            ),
        decreases len - n,
    {
        let c = query.get_char(n);
        if c == '*' && loose {
            assert(query@[n as int] == '*');
            return true;
        }
        proof {
            lemma_one_more_blank(query@, n as int);
        }
        loose = is_blank(c) && (signed || loose);
        signed = (c == '+' || c == '-') && begins && !quoted;
        begins = is_end_of_part(c);
        quoted = quoted != (plain && c == '"');
        n += 1;
    }
    false
}

/// One more character decides whether a loose sign is still at the end.
proof fn lemma_one_more_blank(query: Seq<char>, n: int)
    requires
        0 <= n < query.len(),
    ensures
        ends_in_loose_sign(query, n + 1) <==> blank(query[n]) && (ends_in_loose_sign(query, n) || (n
            > 0 && signs_part(query, n - 1))),
{
    if ends_in_loose_sign(query, n + 1) {
        let i = choose|i: int|
            0 <= i < n && #[trigger] signs_part(query, i) && forall|j: int|
                i < j < n + 1 ==> blank(#[trigger] query[j]);
        assert(blank(query[n]));
        if i < n - 1 {
            assert(signs_part(query, i));
        }
    }
    if blank(query[n]) && n > 0 && signs_part(query, n - 1) {
        assert(signs_part(query, n - 1));
    }
}

/// Whether a query is nested too deeply.
pub fn nests_too_deep(query: &str) -> (deep: bool)
    ensures
        deep == nests_deeply(query@),
{
    let plain = finds_plain_quotes(query);
    let len: usize = query.unicode_len();
    let mut quoted: bool = false;
    let mut groups: usize = 0;
    let mut negated: usize = 0;
    let mut n: usize = 0;
    while n < len
        invariant
            len == query@.len(),
            n <= len,
            plain == has_plain_quotes(query@),
            quoted == in_phrase(query@, n as int),
            groups == open_groups(query@, n as int),
            groups <= MAX_GROUPS,
            forall|k: int| 0 <= k <= n ==> #[trigger] open_groups(query@, k) <= MAX_GROUPS,
            negated == negations(query@, n as int),
            negated <= MAX_NEGATIONS,
        decreases len - n,
    {
        let c = query.get_char(n);
        if !quoted && c == '(' {
            groups += 1;
        } else if !quoted && c == ')' && plain && groups > 0 {
            groups -= 1;
        }
        assert(groups == open_groups(query@, n + 1));
        if groups > MAX_GROUPS {
            return true;
        }
        if is_negation(query, n, len) {
            negated += 1;
        }
        assert(negated == negations(query@, n + 1));
        if negated > MAX_NEGATIONS {
            proof {
                lemma_negations_grow(query@, n + 1);
            }
            return true;
        }
        quoted = quoted != (plain && c == '"');
        n += 1;
    }
    false
}

/// Whether a negation begins at `n`.
fn is_negation(query: &str, n: usize, len: usize) -> (found: bool)
    requires
        len == query@.len(),
        n < len,
    ensures
        found == negates(query@, n as int),
{
    len - n > 3 && query.get_char(n) == 'N' && query.get_char(n + 1) == 'O' && query.get_char(n + 2)
        == 'T' && is_blank(query.get_char(n + 3))
}

/// The whole query has as many negations as its beginning, or more.
proof fn lemma_negations_grow(query: Seq<char>, n: int)
    requires
        0 <= n <= query.len(),
    ensures
        negations(query, n) <= negations(query, query.len() as int),
    decreases query.len() - n,
{
    if n < query.len() {
        lemma_negations_grow(query, n + 1);
    }
}

} // verus!
