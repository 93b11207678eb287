//! Static extraction of the tables and columns that an SQL statement refers
//! to, with the statement's kind and the table it writes to.
//!
//! [`inspect`] reads SQL text. [`extract`] does the same work on the nodes of
//! a syntax tree that the caller supplies.

pub mod alias_map;
pub mod collector;
pub mod extract;
pub mod guard;
pub mod resolver;
pub mod result;
pub mod rules;
pub mod sql;
pub mod string_set;
pub mod syntax;
pub mod text;

pub use crate::extract::{extract, extraction};
pub use crate::result::{ExtractResult, ExtractResultView, QueryType};
pub use crate::sql::{readable, ParseFailure};

use crate::string_set::strictly_ascending;

use vstd::prelude::*;

verus! {

/// The summary of the SQL text `sql`; `None` where the text is not SQL.
pub open spec fn inspection(sql: Seq<char>) -> Option<ExtractResultView> {
    match readable(sql) {
        Some(nodes) => Some(extraction(nodes)),
        None => None,
    }
}

/// Whether `outcome` is what the text `sql` calls for: its summary, or a
/// failure where it has none.
pub open spec fn inspects(sql: Seq<char>, outcome: Result<ExtractResult, ParseFailure>) -> bool {
    match outcome {
        Ok(result) => inspection(sql) == Some(result@),
        Err(_) => inspection(sql) is None,
    }
}

/// Two readings of one text agree: both fail, or both give the same summary.
pub proof fn lemma_inspect_deterministic(
    sql: Seq<char>,
    first: Result<ExtractResult, ParseFailure>,
    second: Result<ExtractResult, ParseFailure>,
)
    requires
        inspects(sql, first),
        inspects(sql, second),
    ensures
        first is Ok <==> second is Ok,
        first is Ok ==> first->Ok_0@ == second->Ok_0@,
{
}

/// Summarises the SQL text `sql`: the tables and columns it refers to, its
/// kind and its target table. A text that cannot be parsed gives a failure
/// and no summary: the parser's own, or, for a text that is kept from the
/// parser, one that says which identifier is missing.
pub fn inspect(sql: &str) -> (r: Result<ExtractResult, ParseFailure>)
    ensures
        inspects(sql@, r),
        r matches Ok(result) ==> strictly_ascending(result@.tables) && strictly_ascending(
            result@.columns,
        ),
{
    match crate::sql::read(sql) {
        Ok(nodes) => Ok(extract(&nodes)),
        Err(failure) => Err(failure),
    }
}

} // verus!
