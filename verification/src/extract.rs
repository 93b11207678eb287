//! From the nodes of a statement to its summary.

use crate::collector::collect;
use crate::rules::{
    binds, collected, lemma_collected_alias, lemma_collected_finite, lemma_collected_sets,
    named_table_rule, node_alias, node_column_rule, node_columns, node_kind, node_table_rule,
    node_tables, node_target, projection_item_rule, star, statement_kind, statement_target,
};
use crate::resolver::{
    aliases_end_in_tables, lemma_resolved_member, lemma_resolved_prefix, resolution,
    resolve_aliases, resolve_columns,
};
use crate::result::{ExtractResult, ExtractResultView, QueryType};
use crate::string_set::{ascending, lemma_ascending, strictly_ascending};
use crate::syntax::{
    views, ExpressionView, FromClauseView, Node, NodeView, QueryBodyView, StatementNodeView,
};
use crate::text::{after_last_dot, before_first_dot, has_dot, qualified};
use vstd::prelude::*;

verus! {

/// The kind that is handed out: the one that was found, `SELECT` where none was.
pub open spec fn query_type_or_default(found: Option<QueryType>) -> QueryType {
    match found {
        Some(query_type) => query_type,
        None => QueryType::SELECT,
    }
}

/// The summary of a statement with the nodes `nodes`: its tables and its
/// columns after resolution, each in ascending order, its target table and
/// its kind.
pub open spec fn extraction(nodes: Seq<NodeView>) -> ExtractResultView {
    let state = collected(nodes);
    ExtractResultView {
        tables: ascending(state.tables),
        columns: ascending(resolve_columns(state.aliases, state.columns)),
        target_table: state.target_table,
        query_type: query_type_or_default(state.query_type),
    }
}

/// Tables and columns come out in strictly ascending order, so none comes twice.
pub proof fn lemma_extraction_ascending(nodes: Seq<NodeView>)
    ensures
        strictly_ascending(extraction(nodes).tables),
        strictly_ascending(extraction(nodes).columns),
        extraction(nodes).tables.no_duplicates(),
        extraction(nodes).columns.no_duplicates(),
        extraction(nodes).tables.to_set() == collected(nodes).tables,
        extraction(nodes).columns.to_set() == resolve_columns(
            collected(nodes).aliases,
            collected(nodes).columns,
        ),
{
    let state = collected(nodes);
    lemma_collected_finite(nodes);
    state.columns.lemma_map_finite(resolution(state.aliases));
    lemma_ascending(state.tables);
    lemma_ascending(resolve_columns(state.aliases, state.columns));
}

/// The target table is the one that the last node with a target names: the
/// table of an `INSERT` or an `UPDATE`, the first table of a `DELETE`.
pub proof fn lemma_target_table(nodes: Seq<NodeView>, i: int)
    requires
        0 <= i < nodes.len(),
        node_target(nodes[i]) is Some,
        forall|j: int| i < j < nodes.len() ==> node_target(#[trigger] nodes[j]) is None,
    ensures
        extraction(nodes).target_table == node_target(nodes[i])->0,
    decreases nodes.len(),
{
    if i < nodes.len() - 1 {
        lemma_target_table(nodes.drop_last(), i);
    }
}

/// Without a node that names a target, as in a statement that only queries,
/// the target table is empty.
pub proof fn lemma_no_target_table(nodes: Seq<NodeView>)
    requires
        forall|j: int| 0 <= j < nodes.len() ==> node_target(#[trigger] nodes[j]) is None,
    ensures
        extraction(nodes).target_table == Seq::<char>::empty(),
    decreases nodes.len(),
{
    if nodes.len() > 0 {
        lemma_no_target_table(nodes.drop_last());
    }
}

/// The kind of the statement is the one that the last node with a kind gives.
pub proof fn lemma_query_type(nodes: Seq<NodeView>, i: int)
    requires
        0 <= i < nodes.len(),
        node_kind(nodes[i]) is Some,
        forall|j: int| i < j < nodes.len() ==> node_kind(#[trigger] nodes[j]) is None,
    ensures
        extraction(nodes).query_type == node_kind(nodes[i])->0,
    decreases nodes.len(),
{
    if i < nodes.len() - 1 {
        lemma_query_type(nodes.drop_last(), i);
    }
}

/// Without a node that gives a kind the statement counts as a `SELECT`.
pub proof fn lemma_default_query_type(nodes: Seq<NodeView>)
    requires
        forall|j: int| 0 <= j < nodes.len() ==> node_kind(#[trigger] nodes[j]) is None,
    ensures
        extraction(nodes).query_type == QueryType::SELECT,
    decreases nodes.len(),
{
    if nodes.len() > 0 {
        lemma_default_query_type(nodes.drop_last());
    }
}

/// The node that names the target of a write is an `INSERT`, an `UPDATE` or
/// a `DELETE`, and the table that it names is among the tables that it
/// contributes.
pub proof fn lemma_target_is_named(node: NodeView)
    requires
        node_target(node) is Some,
    ensures
        node_kind(node) is Some,
        node_kind(node) != Some(QueryType::SELECT),
        node_tables(node).contains(node_target(node)->0),
{
    match node {
        NodeView::Statement(
            StatementNodeView::Delete { from: FromClauseView::WithFromKeyword(tables) },
        ) => {
            assert(named_table_rule()(tables[0]).contains(node_target(node)->0));
        },
        _ => {},
    }
}

/// The target of a write: where a node names a target and none after it
/// does, the target table is that table, it is among the tables, and it is
/// not empty unless the name that the statement gives is.
pub proof fn lemma_write_target(nodes: Seq<NodeView>, i: int)
    requires
        0 <= i < nodes.len(),
        node_target(nodes[i]) is Some,
        forall|j: int| i < j < nodes.len() ==> node_target(#[trigger] nodes[j]) is None,
    ensures
        extraction(nodes).target_table == node_target(nodes[i])->0,
        extraction(nodes).tables.contains(extraction(nodes).target_table),
        node_target(nodes[i])->0.len() > 0 ==> extraction(nodes).target_table.len() > 0,
{
    lemma_target_table(nodes, i);
    lemma_target_is_named(nodes[i]);
    lemma_collected_sets(nodes);
    assert(node_table_rule()(nodes[i]).contains(node_target(nodes[i])->0));
    lemma_extraction_ascending(nodes);
    assert(extraction(nodes).tables.to_set().contains(node_target(nodes[i])->0));
}

/// Of a text with one statement: the target table is the table that the
/// statement writes to, and empty where it names none, as for every query;
/// the kind is the statement's own.
pub proof fn lemma_one_statement(nodes: Seq<NodeView>, i: int, statement: StatementNodeView)
    requires
        0 <= i < nodes.len(),
        nodes[i] == NodeView::Statement(statement),
        forall|j: int| 0 <= j < nodes.len() && j != i ==> !(#[trigger] nodes[j] is Statement),
    ensures
        extraction(nodes).target_table == match statement_target(statement) {
            Some(table) => table,
            None => Seq::empty(),
        },
        extraction(nodes).query_type == query_type_or_default(statement_kind(statement)),
        statement is Query ==> extraction(nodes).target_table == Seq::<char>::empty()
            && extraction(nodes).query_type == QueryType::SELECT,
{
    if statement_target(statement) is Some {
        lemma_target_table(nodes, i);
    } else {
        lemma_no_target_table(nodes);
    }
    if statement_kind(statement) is Some {
        lemma_query_type(nodes, i);
    } else {
        lemma_default_query_type(nodes);
    }
}

/// Where an alias stands for a table, a column that was read with the alias
/// before its first dot comes out with the table in its place.
pub proof fn lemma_alias_substitution(
    nodes: Seq<NodeView>,
    i: int,
    alias: Seq<char>,
    table: Seq<char>,
    column: Seq<char>,
)
    requires
        0 <= i < nodes.len(),
        node_alias(nodes[i]) == Some((alias, table)),
        forall|j: int| i < j < nodes.len() ==> !binds(#[trigger] nodes[j], alias),
        collected(nodes).columns.contains(column),
        has_dot(column),
        before_first_dot(column) == alias,
    ensures
        extraction(nodes).columns.contains(qualified(table, after_last_dot(column))),
{
    let state = collected(nodes);
    lemma_collected_alias(nodes, i, alias, table);
    lemma_resolved_member(state.aliases, state.columns, column);
    lemma_extraction_ascending(nodes);
}

/// No column comes out under an alias: where no alias stands for a name that
/// begins with an alias of another table, a column that comes out with an
/// alias before its first dot has the alias's own table there.
pub proof fn lemma_alias_prefix_is_table(nodes: Seq<NodeView>, column: Seq<char>)
    requires
        aliases_end_in_tables(collected(nodes).aliases),
        extraction(nodes).columns.contains(column),
        has_dot(column),
        collected(nodes).aliases.contains_key(before_first_dot(column)),
    ensures
        column == qualified(
            collected(nodes).aliases[before_first_dot(column)],
            after_last_dot(column),
        ),
{
    let state = collected(nodes);
    lemma_extraction_ascending(nodes);
    lemma_resolved_prefix(state.aliases, state.columns, column);
}

/// Whether a node asks for all columns: the expression `*`, or a query whose
/// projection holds `*`.
pub open spec fn is_wildcard(node: NodeView) -> bool {
    match node {
        NodeView::Expr(ExpressionView::Wildcard) => true,
        NodeView::Statement(
            StatementNodeView::Query { body: QueryBodyView::Select { projection } },
        ) => exists|k: int| 0 <= k < projection.len() && #[trigger] projection[k] is Wildcard,
        _ => false,
    }
}

/// However many nodes ask for all columns, the column `*` comes out once.
pub proof fn lemma_wildcard_once(nodes: Seq<NodeView>, i: int)
    requires
        0 <= i < nodes.len(),
        is_wildcard(nodes[i]),
    ensures
        extraction(nodes).columns.contains(star()),
        forall|a: int, b: int|
            0 <= a < extraction(nodes).columns.len() && 0 <= b < extraction(nodes).columns.len()
                && extraction(nodes).columns[a] == star() && extraction(nodes).columns[b]
                == star() ==> a == b,
{
    let state = collected(nodes);
    lemma_collected_sets(nodes);
    assert(node_columns(nodes[i]).contains(star())) by {
        match nodes[i] {
            NodeView::Statement(
                StatementNodeView::Query { body: QueryBodyView::Select { projection } },
            ) => {
                let k = choose|k: int|
                    0 <= k < projection.len() && #[trigger] projection[k] is Wildcard;
                assert(projection_item_rule()(projection[k]).contains(star()));
            },
            _ => {},
        }
    }
    assert(node_column_rule()(nodes[i]).contains(star()));
    lemma_resolved_member(state.aliases, state.columns, star());
    lemma_extraction_ascending(nodes);
}

/// Summarises a statement from the nodes of its syntax tree, given in the
/// order of a pre-order walk.
pub fn extract(nodes: &Vec<Node>) -> (r: ExtractResult)
    ensures
        r@ == extraction(views(nodes@)),
        strictly_ascending(r@.tables),
        strictly_ascending(r@.columns),
{
    proof {
        lemma_extraction_ascending(views(nodes@));
    }
    let state = collect(nodes);
    let (columns, tables, aliases, target_table, query_type) = state.into_parts();
    let resolved = resolve_aliases(&columns, &aliases);
    ExtractResult {
        tables: tables.into_vec(),
        columns: resolved.into_vec(),
        target_table,
        query_type: match query_type {
            Some(query_type) => query_type,
            None => QueryType::SELECT,
        },
    }
}

} // verus!
