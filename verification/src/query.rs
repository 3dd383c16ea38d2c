//! The query that finds the records to reingest.

use crate::options::IngestOptions;
use crate::text::{
    contains, decimal, ends_with, lemma_absent_by_pair, lemma_decimal_pairs, lemma_ends_with,
    is_digit, lemma_occurs_between, lemma_once_by_pair, lemma_pairs_concat, occurs_once, only_at,
    pair_only_at, to_decimal,
};
use vstd::prelude::*;

verus! {

/// The predicate that keeps the records above `min`, where one is set.
pub open spec fn lower_bound_clause(min: Option<usize>) -> Seq<char> {
    match min {
        Some(m) => " AND id > "@ + decimal(m as nat),
        None => Seq::empty(),
    }
}

/// The predicate that keeps the records below `max`, where one is set.
pub open spec fn upper_bound_clause(max: Option<usize>) -> Seq<char> {
    match max {
        Some(m) => " AND id < "@ + decimal(m as nat),
        None => Seq::empty(),
    }
}

/// The order in which the records are asked for.
pub open spec fn order_clause(newest_first: bool) -> Seq<char> {
    if newest_first {
        " ORDER BY create_date DESC, id DESC"@
    } else {
        " ORDER BY id"@
    }
}

/// The text of the discovery query: the records that are not deleted,
/// within the bounds that are set, in the order asked for.
pub open spec fn discovery_query(
    min: Option<usize>,
    max: Option<usize>,
    newest_first: bool,
) -> Seq<char> {
    "SELECT id FROM biblio.record_entry"@ + " WHERE NOT deleted"@ + lower_bound_clause(min)
        + upper_bound_clause(max) + order_clause(newest_first)
}

/// Builds the discovery query of a run.
pub fn create_sql(options: &IngestOptions) -> (sql: String)
    ensures
        sql@ == discovery_query(options.min_id, options.max_id, options.newest_first),
{
    let mut sql = String::from_str("SELECT id FROM biblio.record_entry");
    sql.append(" WHERE NOT deleted");
    let ghost base = sql@;
    if let Some(min) = options.min_id {
        let digits = to_decimal(min as u64);
        sql.append(" AND id > ");
        sql.append(digits.as_str());
    }
    assert(sql@ =~= base + lower_bound_clause(options.min_id));
    let ghost bounded_below = sql@;
    if let Some(max) = options.max_id {
        let digits = to_decimal(max as u64);
        sql.append(" AND id < ");
        sql.append(digits.as_str());
    }
    assert(sql@ =~= bounded_below + upper_bound_clause(options.max_id));
    if options.newest_first {
        sql.append(" ORDER BY create_date DESC, id DESC");
    } else {
        sql.append(" ORDER BY id");
    }
    sql
}

/// If `b`, which is no digit, never follows `a` in the words of a bound's
/// predicate, it does not in the predicate, whatever the bound.
proof fn lemma_bound_pairs(words: Seq<char>, bound: Option<usize>, a: char, b: char)
    requires
        !is_digit(b),
        pair_only_at(words, a, b, 0),
    ensures
        bound matches Some(m) ==> pair_only_at(words + decimal(m as nat), a, b, 0),
        pair_only_at(Seq::<char>::empty(), a, b, 0),
{
    if let Some(m) = bound {
        lemma_decimal_pairs(m as nat, a, b);
        lemma_pairs_concat(words, decimal(m as nat), a, b);
    }
}

/// If `b` never follows `a` in the three clauses behind the first two, it
/// does not in the three put together.
proof fn lemma_tail_pairs(
    min: Option<usize>,
    max: Option<usize>,
    newest_first: bool,
    a: char,
    b: char,
)
    requires
        pair_only_at(lower_bound_clause(min), a, b, 0),
        pair_only_at(upper_bound_clause(max), a, b, 0),
        pair_only_at(order_clause(newest_first), a, b, 0),
    ensures
        pair_only_at(lower_bound_clause(min) + upper_bound_clause(max), a, b, 0),
        pair_only_at(
            lower_bound_clause(min) + upper_bound_clause(max) + order_clause(newest_first),
            a,
            b,
            0,
        ),
{
    lemma_pairs_concat(lower_bound_clause(min), upper_bound_clause(max), a, b);
    lemma_pairs_concat(
        lower_bound_clause(min) + upper_bound_clause(max),
        order_clause(newest_first),
        a,
        b,
    );
}

/// If `b` never follows `a` in any clause of the query, it does not in the
/// query.
proof fn lemma_query_pairs(
    min: Option<usize>,
    max: Option<usize>,
    newest_first: bool,
    a: char,
    b: char,
)
    requires
        pair_only_at("SELECT id FROM biblio.record_entry"@, a, b, 0),
        pair_only_at(" WHERE NOT deleted"@, a, b, 0),
        pair_only_at(lower_bound_clause(min), a, b, 0),
        pair_only_at(upper_bound_clause(max), a, b, 0),
        pair_only_at(order_clause(newest_first), a, b, 0),
    ensures
        pair_only_at(discovery_query(min, max, newest_first), a, b, 0),
{
    let select = "SELECT id FROM biblio.record_entry"@;
    let filter = " WHERE NOT deleted"@;
    let tail = lower_bound_clause(min) + upper_bound_clause(max) + order_clause(newest_first);
    lemma_tail_pairs(min, max, newest_first, a, b);
    lemma_pairs_concat(select, filter, a, b);
    lemma_pairs_concat(select + filter, tail, a, b);
    assert(discovery_query(min, max, newest_first) =~= select + filter + tail);
}

/// Whatever the bounds and the order, the query holds the predicate that
/// leaves the deleted records out, and holds it once.
pub proof fn law_not_deleted_once(min: Option<usize>, max: Option<usize>, newest_first: bool)
    ensures
        occurs_once(discovery_query(min, max, newest_first), "NOT deleted"@),
{
    let select = "SELECT id FROM biblio.record_entry"@;
    let filter = " WHERE NOT deleted"@;
    let needle = "NOT deleted"@;
    let tail = lower_bound_clause(min) + upper_bound_clause(max) + order_clause(newest_first);
    reveal_strlit("SELECT id FROM biblio.record_entry");
    reveal_strlit(" WHERE NOT deleted");
    reveal_strlit("NOT deleted");
    reveal_strlit(" AND id > ");
    reveal_strlit(" AND id < ");
    reveal_strlit(" ORDER BY create_date DESC, id DESC");
    reveal_strlit(" ORDER BY id");
    assert(pair_only_at(select, 'N', 'O', 0));
    assert(pair_only_at(filter, 'N', 'O', 8));
    assert(pair_only_at(" AND id > "@, 'N', 'O', 0));
    assert(pair_only_at(" AND id < "@, 'N', 'O', 0));
    assert(pair_only_at(order_clause(newest_first), 'N', 'O', 0));
    lemma_bound_pairs(" AND id > "@, min, 'N', 'O');
    lemma_bound_pairs(" AND id < "@, max, 'N', 'O');
    lemma_tail_pairs(min, max, newest_first, 'N', 'O');
    assert(filter.subrange(7, 18) =~= needle);
    lemma_once_by_pair(select, filter, tail, needle, 7);
    assert(discovery_query(min, max, newest_first) =~= select + filter + tail);
    assert(only_at(discovery_query(min, max, newest_first), needle, 41));
}

/// The query holds a predicate on the lower side exactly if a lower bound
/// is set, and one on the upper side exactly if an upper bound is set; each
/// names the bound that was set.
pub proof fn law_bounds_in_query(min: Option<usize>, max: Option<usize>, newest_first: bool)
    ensures
        contains(discovery_query(min, max, newest_first), "id > "@) <==> min is Some,
        contains(discovery_query(min, max, newest_first), "id < "@) <==> max is Some,
        min matches Some(m) ==> contains(
            discovery_query(min, max, newest_first),
            "id > "@ + decimal(m as nat),
        ),
        max matches Some(m) ==> contains(
            discovery_query(min, max, newest_first),
            "id < "@ + decimal(m as nat),
        ),
{
    let query = discovery_query(min, max, newest_first);
    let select = "SELECT id FROM biblio.record_entry"@;
    let filter = " WHERE NOT deleted"@;
    let lower = lower_bound_clause(min);
    let upper = upper_bound_clause(max);
    let order = order_clause(newest_first);
    reveal_strlit("SELECT id FROM biblio.record_entry");
    reveal_strlit(" WHERE NOT deleted");
    reveal_strlit(" AND id > ");
    reveal_strlit(" AND id < ");
    reveal_strlit(" AND ");
    reveal_strlit("id > ");
    reveal_strlit("id < ");
    reveal_strlit(" ORDER BY create_date DESC, id DESC");
    reveal_strlit(" ORDER BY id");
    let and = " AND "@;
    match min {
        Some(m) => {
            let before = select + filter + and;
            assert(" AND id > "@ =~= and + "id > "@);
            lemma_occurs_between(before, "id > "@ + decimal(m as nat), upper + order);
            assert(query =~= before + ("id > "@ + decimal(m as nat)) + (upper + order));
            lemma_occurs_between(before, "id > "@, decimal(m as nat) + upper + order);
            assert(query =~= before + "id > "@ + (decimal(m as nat) + upper + order));
        },
        None => {
            assert(pair_only_at(select, ' ', '>', 0));
            assert(pair_only_at(filter, ' ', '>', 0));
            assert(pair_only_at(" AND id < "@, ' ', '>', 0));
            assert(pair_only_at(order, ' ', '>', 0));
            lemma_bound_pairs(" AND id < "@, max, ' ', '>');
            lemma_query_pairs(min, max, newest_first, ' ', '>');
            lemma_absent_by_pair(query, "id > "@, 2);
        },
    }
    match max {
        Some(m) => {
            let before = select + filter + lower + and;
            assert(" AND id < "@ =~= and + "id < "@);
            lemma_occurs_between(before, "id < "@ + decimal(m as nat), order);
            assert(query =~= before + ("id < "@ + decimal(m as nat)) + order);
            lemma_occurs_between(before, "id < "@, decimal(m as nat) + order);
            assert(query =~= before + "id < "@ + (decimal(m as nat) + order));
        },
        None => {
            assert(pair_only_at(select, ' ', '<', 0));
            assert(pair_only_at(filter, ' ', '<', 0));
            assert(pair_only_at(" AND id > "@, ' ', '<', 0));
            assert(pair_only_at(order, ' ', '<', 0));
            lemma_bound_pairs(" AND id > "@, min, ' ', '<');
            lemma_query_pairs(min, max, newest_first, ' ', '<');
            lemma_absent_by_pair(query, "id < "@, 2);
        },
    }
}

/// The query ends in its order, which it names once: by creation date and
/// then by identifier, both downwards, where the newest records come
/// first, and by identifier upwards otherwise.
pub proof fn law_order_of_query(min: Option<usize>, max: Option<usize>, newest_first: bool)
    ensures
        occurs_once(discovery_query(min, max, newest_first), "ORDER BY"@),
        newest_first ==> ends_with(
            discovery_query(min, max, newest_first),
            "ORDER BY create_date DESC, id DESC"@,
        ),
        !newest_first ==> ends_with(discovery_query(min, max, newest_first), "ORDER BY id"@),
        !newest_first ==> !contains(discovery_query(min, max, newest_first), "DESC"@),
{
    let query = discovery_query(min, max, newest_first);
    let select = "SELECT id FROM biblio.record_entry"@;
    let filter = " WHERE NOT deleted"@;
    let lower = lower_bound_clause(min);
    let upper = upper_bound_clause(max);
    let order = order_clause(newest_first);
    let needle = "ORDER BY"@;
    reveal_strlit("SELECT id FROM biblio.record_entry");
    reveal_strlit(" WHERE NOT deleted");
    reveal_strlit(" AND id > ");
    reveal_strlit(" AND id < ");
    reveal_strlit(" ORDER BY create_date DESC, id DESC");
    reveal_strlit(" ORDER BY id");
    reveal_strlit("ORDER BY create_date DESC, id DESC");
    reveal_strlit("ORDER BY id");
    reveal_strlit("ORDER BY");
    reveal_strlit("DESC");
    let before = select + filter + lower + upper;
    assert(pair_only_at(select, 'O', 'R', 0));
    assert(pair_only_at(filter, 'O', 'R', 0));
    assert(pair_only_at(" AND id > "@, 'O', 'R', 0));
    assert(pair_only_at(" AND id < "@, 'O', 'R', 0));
    lemma_bound_pairs(" AND id > "@, min, 'O', 'R');
    lemma_bound_pairs(" AND id < "@, max, 'O', 'R');
    lemma_pairs_concat(select, filter, 'O', 'R');
    lemma_pairs_concat(select + filter, lower, 'O', 'R');
    lemma_pairs_concat(select + filter + lower, upper, 'O', 'R');
    assert(pair_only_at(order, 'O', 'R', 2));
    assert(order.subrange(1, 9) =~= needle);
    lemma_once_by_pair(before, order, Seq::<char>::empty(), needle, 1);
    assert(query =~= before + order + Seq::<char>::empty());
    assert(only_at(query, needle, (before.len() + 1) as int));
    assert(query =~= before + order);
    if newest_first {
        assert(order.subrange(1, 35) =~= "ORDER BY create_date DESC, id DESC"@);
        lemma_ends_with(before, order, "ORDER BY create_date DESC, id DESC"@);
    } else {
        assert(order.subrange(1, 12) =~= "ORDER BY id"@);
        lemma_ends_with(before, order, "ORDER BY id"@);
        assert(pair_only_at(select, 'S', 'C', 0));
        assert(pair_only_at(filter, 'S', 'C', 0));
        assert(pair_only_at(" AND id > "@, 'S', 'C', 0));
        assert(pair_only_at(" AND id < "@, 'S', 'C', 0));
        assert(pair_only_at(order, 'S', 'C', 0));
        lemma_bound_pairs(" AND id > "@, min, 'S', 'C');
        lemma_bound_pairs(" AND id < "@, max, 'S', 'C');
        lemma_query_pairs(min, max, newest_first, 'S', 'C');
        lemma_absent_by_pair(query, "DESC"@, 2);
    }
}

} // verus!
