//! The summary that the extraction hands out.

use crate::string_set::texts;
use vstd::prelude::*;

verus! {

/// The kind of a statement.
#[allow(clippy::upper_case_acronyms)]
#[derive(Debug, Clone, Copy, PartialEq, Eq, Structural)]
pub enum QueryType {
    SELECT,
    INSERT,
    UPDATE,
    DELETE,
}

impl Default for QueryType {
    fn default() -> (r: Self)
        ensures
            r == QueryType::SELECT,
    {
        QueryType::SELECT
    }
}

/// The tables and columns that a statement refers to.
#[derive(Debug)]
pub struct ExtractResult {
    /// The tables, in ascending order.
    pub tables: Vec<String>,
    /// The columns, in ascending order: bare names, qualified names and `*`.
    pub columns: Vec<String>,
    /// The table that an `INSERT`, `UPDATE` or `DELETE` writes to; else empty.
    pub target_table: String,
    pub query_type: QueryType,
}

/// An `ExtractResult` as a mathematical value.
pub struct ExtractResultView {
    pub tables: Seq<Seq<char>>,
    pub columns: Seq<Seq<char>>,
    pub target_table: Seq<char>,
    pub query_type: QueryType,
}

impl View for ExtractResult {
    type V = ExtractResultView;

    open spec fn view(&self) -> ExtractResultView {
        ExtractResultView {
            tables: texts(self.tables@),
            columns: texts(self.columns@),
            target_table: self.target_table@,
            query_type: self.query_type,
        }
    }
}

/// Two lists of strings in one line, each as the standard library prints a
/// list of strings for debugging, with a space between them.
pub uninterp spec fn listing(tables: Seq<Seq<char>>, columns: Seq<Seq<char>>) -> Seq<char>;

/// Formats the two lists with `format!` and the `Debug` format of
/// `Vec<String>`, which depends on the strings alone.
#[verifier::external_body]
fn format_lists(tables: &Vec<String>, columns: &Vec<String>) -> (r: String)
    ensures
        r@ == listing(texts(tables@), texts(columns@)),
{
    format!("{:?} {:?}", tables, columns)
}

impl ExtractResult {
    /// The tables and the columns in one line.
    #[allow(clippy::inherent_to_string)]
    pub fn to_string(&self) -> (r: String)
        ensures
            r@ == listing(self@.tables, self@.columns),
    {
        format_lists(&self.tables, &self.columns)
    }
}

} // verus!
