//! The query of the record export.

use crate::text::{decimal, to_decimal};
use vstd::prelude::*;

verus! {

/// Where the exported records go.
#[derive(Debug, PartialEq, Eq)]
pub enum ExportDestination {
    Stdout,
    File(String),
}

/// What an export was asked to do.
#[derive(Debug)]
pub struct ExportOptions {
    /// Only records whose identifier is at least this value, unless it is
    /// negative.
    pub min_id: i64,
    /// Only records whose identifier is below this value, unless it is
    /// negative.
    pub max_id: i64,
    /// Newest records first, by creation date; otherwise oldest first.
    pub newest_first: bool,
    pub destination: ExportDestination,
    /// The file that holds the query, where the query is not built here.
    pub query_file: Option<String>,
}

/// A predicate on the identifier: `words` and then `bound`, unless `bound`
/// is negative.
pub open spec fn bound_clause(words: Seq<char>, bound: i64) -> Seq<char> {
    if bound > -1 {
        words + decimal(bound as nat)
    } else {
        Seq::empty()
    }
}

/// The text of the export query: the records that are not deleted, within
/// the bounds that are set, by creation date.
pub open spec fn export_query(min_id: i64, max_id: i64, newest_first: bool) -> Seq<char> {
    "SELECT bre.marc FROM biblio.record_entry bre WHERE NOT bre.deleted"@ + bound_clause(
        " AND id >= "@,
        min_id,
    ) + bound_clause(" AND id < "@, max_id) + if newest_first {
        " ORDER BY create_date DESC"@
    } else {
        " ORDER BY create_date ASC"@
    }
}

/// Adds to `sql` the predicate that `words` and `bound` make.
fn add_bound(sql: &mut String, words: &str, bound: i64)
    ensures
        final(sql)@ == old(sql)@ + bound_clause(words@, bound),
{
    if bound > -1 {
        let digits = to_decimal(bound as u64);
        sql.append(words);
        sql.append(digits.as_str());
        assert(sql@ =~= old(sql)@ + bound_clause(words@, bound));
    } else {
        assert(sql@ =~= old(sql)@ + bound_clause(words@, bound));
    }
}

/// The query of an export: `written`, the text of the query file, where
/// there is one, and else the query that the options make.
pub fn create_sql(ops: &ExportOptions, written: Option<String>) -> (sql: String)
    ensures
        match written {
            Some(text) => sql == text,
            None => sql@ == export_query(ops.min_id, ops.max_id, ops.newest_first),
        },
{
    if let Some(text) = written {
        return text;
    }
    let mut sql = String::from_str(
        "SELECT bre.marc FROM biblio.record_entry bre WHERE NOT bre.deleted",
    );
    add_bound(&mut sql, " AND id >= ", ops.min_id);
    add_bound(&mut sql, " AND id < ", ops.max_id);
    if ops.newest_first {
        sql.append(" ORDER BY create_date DESC");
    } else {
        sql.append(" ORDER BY create_date ASC");
    }
    sql
}

} // verus!
