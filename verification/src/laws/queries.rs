//! Laws of the tests that queries go through.
use crate::search::query::{finds_loose_star, nests_too_deep};
use vstd::prelude::*;

verus! {

/// Blank characters fill the query from `from` up to `to`.
pub open spec fn only_blanks(query: Seq<char>, from: int, to: int) -> bool {
    forall|j: int|
        from <= j < to ==> (#[trigger] query[j] == ' ' || query[j] == '\t' || query[j] == '\r'
            || query[j] == '\n')
}

/// A sign stands at `i` and a star at `k`, with blanks and nothing else between them.
pub open spec fn sign_blanks_star(query: Seq<char>, i: int, k: int) -> bool {
    &&& 0 <= i && i + 1 < k < query.len()
    &&& query[i] == '+' || query[i] == '-'
    &&& only_blanks(query, i + 1, k)
    &&& query[k] == '*'
}

/// Only a query with a sign, blanks and a star is refused, and only where the sign is not
/// joined to a letter, another sign or a colon before it.
pub proof fn law_only_loose_stars_are_refused(query: &str)
    requires
        call_ensures(finds_loose_star, (query,), true),
    ensures
        exists|i: int, k: int| #[trigger]
            sign_blanks_star(query@, i, k) && (i == 0 || {
                let c = query@[i - 1];
                &&& !('a' <= c <= 'z') && !('A' <= c <= 'Z')
                &&& c != '+' && c != '-' && c != ':'
            }),
{
    let q = query@;
    let k = choose|k: int|
        0 <= k < q.len() && #[trigger] q[k] == '*' && crate::search::query::ends_in_loose_sign(
            q,
            k,
        );
    let i = choose|i: int|
        0 <= i < k - 1 && #[trigger] crate::search::query::signs_part(q, i) && forall|j: int|
            i < j < k ==> crate::search::query::blank(#[trigger] q[j]);
    assert(sign_blanks_star(q, i, k)) by {
        assert forall|j: int| i + 1 <= j < k implies (#[trigger] q[j] == ' ' || q[j] == '\t' || q[j]
            == '\r' || q[j] == '\n') by {
            assert(crate::search::query::blank(q[j]));
        }
    }
}

/// In a query without double quotes, or with a single quote or a backslash that makes their
/// meaning uncertain, a star behind a sign is found wherever the sign is at the start or
/// behind a blank or a parenthesis.
pub proof fn law_loose_stars_are_found(query: &str, i: int, k: int, found: bool)
    requires
        call_ensures(finds_loose_star, (query,), found),
        sign_blanks_star(query@, i, k),
        i == 0 || query@[i - 1] == ' ' || query@[i - 1] == '\t' || query@[i - 1] == '\r'
            || query@[i - 1] == '\n' || query@[i - 1] == '(' || query@[i - 1] == ')',
        !query@.contains('"') || query@.contains('\'') || query@.contains('\\'),
    ensures
        found,
{
    let q = query@;
    lemma_not_in_phrase(q, i);
    assert(crate::search::query::signs_part(q, i));
    assert forall|j: int| i < j < k implies crate::search::query::blank(#[trigger] q[j]) by {
        assert(q[j] == ' ' || q[j] == '\t' || q[j] == '\r' || q[j] == '\n');
    }
    assert(crate::search::query::ends_in_loose_sign(q, k));
}

proof fn lemma_not_in_phrase(q: Seq<char>, i: int)
    requires
        0 <= i <= q.len(),
        !q.contains('"') || q.contains('\'') || q.contains('\\'),
    ensures
        !crate::search::query::in_phrase(q, i),
{
    if crate::search::query::has_plain_quotes(q) {
        if q.contains('\'') {
            let m = choose|m: int| 0 <= m < q.len() && q[m] == '\'';
            assert(q[m] != '\'');
        }
        if q.contains('\\') {
            let m = choose|m: int| 0 <= m < q.len() && q[m] == '\\';
            assert(q[m] != '\\');
        }
        lemma_no_quotes(q, i);
    }
}

proof fn lemma_no_quotes(q: Seq<char>, n: int)
    requires
        0 <= n <= q.len(),
        !q.contains('"'),
    ensures
        crate::search::query::quotes_before(q, n) == 0,
    decreases n,
{
    if n > 0 {
        lemma_no_quotes(q, n - 1);
        assert(q.contains(q[n - 1]));
    }
}

/// A query that is one phrase in double quotes, without single quotes and backslashes, is not
/// refused for a star.
pub proof fn law_phrases_may_hold_stars(query: &str, phrase: Seq<char>, found: bool)
    requires
        call_ensures(finds_loose_star, (query,), found),
        query@ == seq!['"'] + phrase + seq!['"'],
        !phrase.contains('"'),
        !phrase.contains('\''),
        !phrase.contains('\\'),
    ensures
        !found,
{
    let q = query@;
    assert forall|m: int| 0 <= m < q.len() implies #[trigger] q[m] != '\'' && q[m] != '\\' by {
        if 0 < m < q.len() - 1 {
            assert(phrase.contains(phrase[m - 1]));
        }
    }
    assert forall|i: int| 0 <= i < q.len() implies !#[trigger] crate::search::query::signs_part(
        q,
        i,
    ) by {
        if 0 < i < q.len() - 1 {
            lemma_one_quote(q, phrase, i);
        }
    }
}

proof fn lemma_one_quote(q: Seq<char>, phrase: Seq<char>, n: int)
    requires
        q == seq!['"'] + phrase + seq!['"'],
        !phrase.contains('"'),
        1 <= n < q.len(),
    ensures
        crate::search::query::quotes_before(q, n) == 1,
    decreases n,
{
    if n == 1 {
        assert(crate::search::query::quotes_before(q, 0) == 0);
    } else {
        lemma_one_quote(q, phrase, n - 1);
        assert(phrase.contains(phrase[n - 2]));
        assert(q[n - 1] == phrase[n - 2]);
    }
}

/// How often a character stands in a text.
pub open spec fn how_often(text: Seq<char>, c: char) -> nat
    decreases text.len(),
{
    if text.len() == 0 {
        0
    } else {
        how_often(text.drop_last(), c) + if text.last() == c {
            1nat
        } else {
            0
        }
    }
}

/// Only a query with more than 16 opening parentheses, or with more than 100 letters that
/// could begin a negation, is refused for its nesting.
pub proof fn law_only_deep_queries_are_refused(query: &str)
    requires
        call_ensures(nests_too_deep, (query,), true),
    ensures
        how_often(query@, '(') > 16 || how_often(query@, 'N') > 100,
{
    let q = query@;
    assert(q.take(q.len() as int) =~= q);
    if exists|n: int|
        0 <= n <= q.len() && #[trigger] crate::search::query::open_groups(q, n)
            > crate::search::query::MAX_GROUPS {
        let n = choose|n: int|
            0 <= n <= q.len() && #[trigger] crate::search::query::open_groups(q, n)
                > crate::search::query::MAX_GROUPS;
        lemma_counts(q, n);
        lemma_how_often_grows(q, n, '(');
    } else {
        lemma_counts(q, q.len() as int);
    }
}

proof fn lemma_counts(q: Seq<char>, n: int)
    requires
        0 <= n <= q.len(),
    ensures
        crate::search::query::open_groups(q, n) <= how_often(q.take(n), '('),
        crate::search::query::negations(q, n) <= how_often(q.take(n), 'N'),
    decreases n,
{
    if n > 0 {
        lemma_counts(q, n - 1);
        assert(q.take(n).drop_last() =~= q.take(n - 1));
        assert(q.take(n).last() == q[n - 1]);
    }
}

proof fn lemma_how_often_grows(q: Seq<char>, n: int, c: char)
    requires
        0 <= n <= q.len(),
    ensures
        how_often(q.take(n), c) <= how_often(q, c),
    decreases q.len() - n,
{
    if n < q.len() {
        lemma_how_often_grows(q, n + 1, c);
        assert(q.take(n + 1).drop_last() =~= q.take(n));
    } else {
        assert(q.take(n) =~= q);
    }
}

/// More than 16 parentheses that are opened one behind the other are refused, whatever comes
/// after them.
pub proof fn law_deep_groups_are_refused(query: &str, n: int, deep: bool)
    requires
        call_ensures(nests_too_deep, (query,), deep),
        16 < n <= query@.len(),
        forall|i: int| 0 <= i < n ==> #[trigger] query@[i] == '(',
    ensures
        deep,
{
    lemma_all_open(query@, n, n);
}

proof fn lemma_all_open(q: Seq<char>, n: int, m: int)
    requires
        0 <= m <= n <= q.len(),
        forall|i: int| 0 <= i < n ==> #[trigger] q[i] == '(',
    ensures
        crate::search::query::open_groups(q, m) == m,
        crate::search::query::quotes_before(q, m) == 0,
    decreases m,
{
    if m > 0 {
        lemma_all_open(q, n, m - 1);
        assert(q[m - 1] == '(');
    }
}

/// More than 100 negations one behind the other are refused, whatever comes after them.
pub proof fn law_many_negations_are_refused(query: &str, n: int, deep: bool)
    requires
        call_ensures(nests_too_deep, (query,), deep),
        100 < n,
        4 * n <= query@.len(),
        forall|i: int|
            0 <= i < n ==> #[trigger] query@.subrange(4 * i, 4 * i + 4) == seq!['N', 'O', 'T', ' '],
    ensures
        deep,
{
    lemma_all_negated(query@, n, n);
    lemma_negations_grow(query@, 4 * n);
}

proof fn lemma_all_negated(q: Seq<char>, n: int, m: int)
    requires
        0 <= m <= n,
        4 * n <= q.len(),
        forall|i: int|
            0 <= i < n ==> #[trigger] q.subrange(4 * i, 4 * i + 4) == seq!['N', 'O', 'T', ' '],
    ensures
        crate::search::query::negations(q, 4 * m) >= m,
    decreases m,
{
    if m > 0 {
        lemma_all_negated(q, n, m - 1);
        let k = 4 * (m - 1);
        let part = q.subrange(4 * (m - 1), 4 * (m - 1) + 4);
        assert(part == seq!['N', 'O', 'T', ' ']);
        assert(part[0] == q[k] && part[1] == q[k + 1] && part[2] == q[k + 2] && part[3] == q[k
            + 3]);
        assert(crate::search::query::negates(q, k));
        reveal_with_fuel(crate::search::query::negations, 5);
    }
}

proof fn lemma_negations_grow(q: Seq<char>, n: int)
    requires
        0 <= n <= q.len(),
    ensures
        crate::search::query::negations(q, n) <= crate::search::query::negations(q, q.len() as int),
    decreases q.len() - n,
{
    if n < q.len() {
        lemma_negations_grow(q, n + 1);
    }
}

} // verus!
