//! What each node of a statement says of it: the rules of the extraction,
//! as mathematics.

use crate::result::QueryType;
use crate::syntax::{
    printed, values, AssignmentTargetView, ColumnAssignmentView, ExpressionView, FromClauseView,
    IdentifierView, NodeView, ProjectionItemView, QueryBodyView, StatementNodeView,
    TableReferenceView,
};
use crate::text::{dot_join, qualified};
use vstd::prelude::*;

verus! {

/// The column that stands for "all columns".
pub open spec fn star() -> Seq<char> {
    seq!['*']
}

/// All that the items of a list contribute, where `f` says what one item does.
pub open spec fn union_of<T>(items: Seq<T>, f: spec_fn(T) -> Set<Seq<char>>) -> Set<Seq<char>> {
    Set::new(
        |c: Seq<char>| exists|i: int| 0 <= i < items.len() && (#[trigger] f(items[i])).contains(c),
    )
}

/// What an expression contributes wherever it stands in a statement: a
/// wildcard the column `*`, a single name itself, a dotted name all its
/// parts, each without quotes.
pub open spec fn expr_columns(expr: ExpressionView) -> Set<Seq<char>> {
    match expr {
        ExpressionView::Wildcard => set![star()],
        ExpressionView::Identifier(ident) => set![ident.value],
        ExpressionView::CompoundIdentifier(parts) => set![dot_join(values(parts))],
        ExpressionView::Other => Set::empty(),
    }
}

/// What the expression of a projection item contributes: a single name
/// itself, a dotted name all its parts as they are printed.
pub open spec fn projected_expr_columns(expr: ExpressionView) -> Set<Seq<char>> {
    match expr {
        ExpressionView::Identifier(ident) => set![ident.value],
        ExpressionView::CompoundIdentifier(parts) => set![dot_join(printed(parts))],
        _ => Set::empty(),
    }
}

/// What one projection item contributes. An alias counts for nothing.
pub open spec fn projection_item_columns(item: ProjectionItemView) -> Set<Seq<char>> {
    match item {
        ProjectionItemView::UnnamedExpr(expr) => projected_expr_columns(expr),
        ProjectionItemView::ExprWithAlias { expr, alias } => projected_expr_columns(expr),
        ProjectionItemView::Wildcard => set![star()],
        ProjectionItemView::QualifiedWildcard => Set::empty(),
    }
}

/// The rule for projection items, as a function of the item.
pub open spec fn projection_item_rule() -> spec_fn(ProjectionItemView) -> Set<Seq<char>> {
    |item: ProjectionItemView| projection_item_columns(item)
}

/// What the projection of a `SELECT` contributes.
pub open spec fn projection_columns(items: Seq<ProjectionItemView>) -> Set<Seq<char>> {
    union_of(items, projection_item_rule())
}

/// What a query statement contributes: the projection of a plain `SELECT`.
pub open spec fn query_columns(body: QueryBodyView) -> Set<Seq<char>> {
    match body {
        QueryBodyView::Select { projection } => projection_columns(projection),
        QueryBodyView::Other => Set::empty(),
    }
}

/// The rule for the declared columns of an `INSERT` into `table`, as a
/// function of the column: its printed name qualified by the table.
pub open spec fn insert_column_rule(table: Seq<char>) -> spec_fn(IdentifierView) -> Set<Seq<char>> {
    |column: IdentifierView| set![qualified(table, column.text)]
}

/// The declared columns of an `INSERT`, each qualified by the target table.
pub open spec fn insert_columns(table: Seq<char>, columns: Seq<IdentifierView>) -> Set<Seq<char>> {
    union_of(columns, insert_column_rule(table))
}

/// The name of the table that a table reference names; `None` for a
/// reference that is no named table.
pub open spec fn table_name(reference: TableReferenceView) -> Option<Seq<char>> {
    match reference {
        TableReferenceView::Table { name, alias } => Some(name),
        TableReferenceView::Other => None,
    }
}

/// The table that a table reference names, as a set: empty for a reference
/// that is no named table.
pub open spec fn named_tables(reference: TableReferenceView) -> Set<Seq<char>> {
    match table_name(reference) {
        Some(name) => set![name],
        None => Set::empty(),
    }
}

/// `named_tables` as a function of the reference.
pub open spec fn named_table_rule() -> spec_fn(TableReferenceView) -> Set<Seq<char>> {
    |reference: TableReferenceView| named_tables(reference)
}

/// The name `name` qualified by the target table; nothing where the
/// statement has no target.
pub open spec fn qualified_by_target(target: Option<Seq<char>>, name: Seq<char>) -> Set<
    Seq<char>,
> {
    match target {
        Some(table) => set![qualified(table, name)],
        None => Set::empty(),
    }
}

/// What the right-hand side of an assignment contributes: of a dotted name
/// the first part qualifying the last, whatever stands between them; a single
/// name qualified by the target table.
pub open spec fn assigned_value_columns(target: Option<Seq<char>>, value: ExpressionView) -> Set<
    Seq<char>,
> {
    match value {
        ExpressionView::CompoundIdentifier(parts) => if parts.len() > 0 {
            set![qualified(parts.first().text, parts.last().text)]
        } else {
            Set::empty()
        },
        ExpressionView::Identifier(ident) => qualified_by_target(target, ident.text),
        _ => Set::empty(),
    }
}

/// What the left-hand side of an assignment contributes: a name of one part
/// qualified by the target table, any other name as it stands.
pub open spec fn assigned_target_columns(
    target: Option<Seq<char>>,
    column: AssignmentTargetView,
) -> Set<Seq<char>> {
    match column {
        AssignmentTargetView::ColumnName(parts) => if parts.len() == 1 {
            qualified_by_target(target, parts[0].text)
        } else {
            set![dot_join(printed(parts))]
        },
        AssignmentTargetView::Tuple => Set::empty(),
    }
}

/// What one assignment of an `UPDATE` contributes.
pub open spec fn assignment_columns(
    target: Option<Seq<char>>,
    assignment: ColumnAssignmentView,
) -> Set<Seq<char>> {
    assigned_value_columns(target, assignment.value) + assigned_target_columns(
        target,
        assignment.target,
    )
}

/// The rule for the assignments of an `UPDATE` with the target `target`, as
/// a function of the assignment.
pub open spec fn assignment_rule(target: Option<Seq<char>>) -> spec_fn(
    ColumnAssignmentView,
) -> Set<Seq<char>> {
    |assignment: ColumnAssignmentView| assignment_columns(target, assignment)
}

/// What the assignments of an `UPDATE` contribute.
pub open spec fn update_columns(
    target: Option<Seq<char>>,
    assignments: Seq<ColumnAssignmentView>,
) -> Set<Seq<char>> {
    union_of(assignments, assignment_rule(target))
}

/// The columns that a statement contributes by the rule of its kind.
pub open spec fn statement_columns(statement: StatementNodeView) -> Set<Seq<char>> {
    match statement {
        StatementNodeView::Query { body } => query_columns(body),
        StatementNodeView::Insert { table_name, columns } => insert_columns(table_name, columns),
        StatementNodeView::Update { table, assignments } => update_columns(
            table_name(table),
            assignments,
        ),
        _ => Set::empty(),
    }
}

/// The tables that a statement names itself: the table of an `INSERT`, the
/// table that an `UPDATE` names, the tables that a `DELETE` names after
/// `FROM`. An alias and joined tables are no part of a name.
pub open spec fn statement_tables(statement: StatementNodeView) -> Set<Seq<char>> {
    match statement {
        StatementNodeView::Insert { table_name, columns } => set![table_name],
        StatementNodeView::Update { table, assignments } => named_tables(table),
        StatementNodeView::Delete { from: FromClauseView::WithFromKeyword(tables) } => union_of(
            tables,
            named_table_rule(),
        ),
        _ => Set::empty(),
    }
}

/// The table that a statement writes to, where its syntax tells: the table of
/// an `INSERT`, the table that an `UPDATE` names, the table that a `DELETE`
/// names first after `FROM`. Where that reference is no named table the
/// statement has no target.
pub open spec fn statement_target(statement: StatementNodeView) -> Option<Seq<char>> {
    match statement {
        StatementNodeView::Insert { table_name, columns } => Some(table_name),
        StatementNodeView::Update { table, assignments } => table_name(table),
        StatementNodeView::Delete { from: FromClauseView::WithFromKeyword(tables) } => {
            if tables.len() > 0 {
                table_name(tables[0])
            } else {
                None
            }
        },
        _ => None,
    }
}

/// The kind of a statement; `None` for a statement of no kind that the
/// extraction knows.
pub open spec fn statement_kind(statement: StatementNodeView) -> Option<QueryType> {
    match statement {
        StatementNodeView::Query { body } => Some(QueryType::SELECT),
        StatementNodeView::Insert { table_name, columns } => Some(QueryType::INSERT),
        StatementNodeView::Update { table, assignments } => Some(QueryType::UPDATE),
        StatementNodeView::Delete { from } => Some(QueryType::DELETE),
        StatementNodeView::Other => None,
    }
}

/// The columns that a node contributes.
pub open spec fn node_columns(node: NodeView) -> Set<Seq<char>> {
    match node {
        NodeView::Statement(statement) => statement_columns(statement),
        NodeView::Expr(expr) => expr_columns(expr),
        _ => Set::empty(),
    }
}

/// The tables that a node contributes: those of a statement, the name of a
/// table in `FROM` or `JOIN` position, the first part of the name of a
/// relation.
pub open spec fn node_tables(node: NodeView) -> Set<Seq<char>> {
    match node {
        NodeView::Statement(statement) => statement_tables(statement),
        NodeView::TableFactor(reference) => named_tables(reference),
        NodeView::Relation(parts) => if parts.len() > 0 {
            set![parts[0].value]
        } else {
            Set::empty()
        },
        _ => Set::empty(),
    }
}

/// The alias that a node binds, by its name as it is printed, with the table
/// it stands for.
pub open spec fn node_alias(node: NodeView) -> Option<(Seq<char>, Seq<char>)> {
    match node {
        NodeView::TableFactor(TableReferenceView::Table { name, alias: Some(alias) }) => Some(
            (alias.text, name),
        ),
        _ => None,
    }
}

/// Whether a node binds the alias `alias`.
pub open spec fn binds(node: NodeView, alias: Seq<char>) -> bool {
    match node_alias(node) {
        Some((bound, table)) => bound == alias,
        None => false,
    }
}

/// The table that a node names as the target of a write.
pub open spec fn node_target(node: NodeView) -> Option<Seq<char>> {
    match node {
        NodeView::Statement(statement) => statement_target(statement),
        _ => None,
    }
}

/// The kind that a node gives the statement.
pub open spec fn node_kind(node: NodeView) -> Option<QueryType> {
    match node {
        NodeView::Statement(statement) => statement_kind(statement),
        _ => None,
    }
}

/// `node_columns` as a function of the node.
pub open spec fn node_column_rule() -> spec_fn(NodeView) -> Set<Seq<char>> {
    |node: NodeView| node_columns(node)
}

/// `node_tables` as a function of the node.
pub open spec fn node_table_rule() -> spec_fn(NodeView) -> Set<Seq<char>> {
    |node: NodeView| node_tables(node)
}

/// What is known of a statement while its nodes are read.
pub struct StateView {
    pub columns: Set<Seq<char>>,
    pub tables: Set<Seq<char>>,
    /// What each alias stands for.
    pub aliases: Map<Seq<char>, Seq<char>>,
    pub target_table: Seq<char>,
    /// The kind of the statement, once a node has told it.
    pub query_type: Option<QueryType>,
}

/// Nothing is known yet.
pub open spec fn initial_state() -> StateView {
    StateView {
        columns: Set::empty(),
        tables: Set::empty(),
        aliases: Map::empty(),
        target_table: Seq::empty(),
        query_type: None,
    }
}

/// What is known after one more node. Columns and tables are added to. An
/// alias that is bound again stands for the later table. A later target and a
/// later kind replace the earlier.
pub open spec fn step(s: StateView, node: NodeView) -> StateView {
    StateView {
        columns: s.columns + node_columns(node),
        tables: s.tables + node_tables(node),
        aliases: match node_alias(node) {
            Some((alias, table)) => s.aliases.insert(alias, table),
            None => s.aliases,
        },
        target_table: match node_target(node) {
            Some(table) => table,
            None => s.target_table,
        },
        query_type: match node_kind(node) {
            Some(kind) => Some(kind),
            None => s.query_type,
        },
    }
}

/// What is known of a statement when its nodes have been read in their order.
pub open spec fn collected(nodes: Seq<NodeView>) -> StateView {
    nodes.fold_left(initial_state(), |s: StateView, node: NodeView| step(s, node))
}

/// No items contribute nothing.
pub proof fn lemma_union_of_none<T>(items: Seq<T>, f: spec_fn(T) -> Set<Seq<char>>)
    ensures
        union_of(items.take(0), f) =~= Set::<Seq<char>>::empty(),
{
}

/// The first `i + 1` items contribute what the first `i` do and what item `i` does.
pub proof fn lemma_union_of_next<T>(items: Seq<T>, f: spec_fn(T) -> Set<Seq<char>>, i: int)
    requires
        0 <= i < items.len(),
    ensures
        union_of(items.take(i + 1), f) =~= union_of(items.take(i), f) + f(items[i]),
{
    let shorter = items.take(i);
    let longer = items.take(i + 1);
    assert forall|c: Seq<char>| union_of(longer, f).contains(c) <==> (union_of(shorter, f) + f(
        items[i],
    )).contains(c) by {
        if f(items[i]).contains(c) {
            assert(f(longer[i]).contains(c));
        }
    }
}

/// What a list of items contributes is finite where each item's share is.
pub proof fn lemma_union_of_finite<T>(items: Seq<T>, f: spec_fn(T) -> Set<Seq<char>>)
    requires
        forall|i: int| 0 <= i < items.len() ==> (#[trigger] f(items[i])).finite(),
    ensures
        union_of(items, f).finite(),
    decreases items.len(),
{
    if items.len() == 0 {
        assert(union_of(items, f) =~= Set::<Seq<char>>::empty());
    } else {
        lemma_union_of_finite(items.drop_last(), f);
        lemma_union_of_next(items, f, items.len() - 1);
        assert(items.take(items.len() as int) =~= items);
    }
}

/// A node contributes finitely many columns and tables.
pub proof fn lemma_node_finite(node: NodeView)
    ensures
        node_columns(node).finite(),
        node_tables(node).finite(),
{
    match node {
        NodeView::Statement(
            StatementNodeView::Query { body: QueryBodyView::Select { projection } },
        ) => {
            lemma_union_of_finite(projection, projection_item_rule());
        },
        NodeView::Statement(StatementNodeView::Insert { table_name, columns }) => {
            lemma_union_of_finite(columns, insert_column_rule(table_name));
        },
        NodeView::Statement(StatementNodeView::Update { table, assignments }) => {
            lemma_union_of_finite(assignments, assignment_rule(table_name(table)));
        },
        NodeView::Statement(
            StatementNodeView::Delete { from: FromClauseView::WithFromKeyword(tables) },
        ) => {
            lemma_union_of_finite(tables, named_table_rule());
        },
        _ => {},
    }
}

/// The columns and tables of a statement are finitely many.
pub proof fn lemma_collected_finite(nodes: Seq<NodeView>)
    ensures
        collected(nodes).columns.finite(),
        collected(nodes).tables.finite(),
    decreases nodes.len(),
{
    if nodes.len() > 0 {
        lemma_collected_finite(nodes.drop_last());
        lemma_node_finite(nodes.last());
    }
}

/// The columns and the tables of a statement are what its nodes contribute,
/// each node for itself: the order in which they are read does not matter.
pub proof fn lemma_collected_sets(nodes: Seq<NodeView>)
    ensures
        collected(nodes).columns =~= union_of(nodes, node_column_rule()),
        collected(nodes).tables =~= union_of(nodes, node_table_rule()),
    decreases nodes.len(),
{
    if nodes.len() > 0 {
        lemma_collected_sets(nodes.drop_last());
        lemma_union_of_next(nodes, node_column_rule(), nodes.len() - 1);
        lemma_union_of_next(nodes, node_table_rule(), nodes.len() - 1);
        assert(nodes.take(nodes.len() as int) =~= nodes);
    }
}

/// An alias stands for the table of the last node that binds it.
pub proof fn lemma_collected_alias(nodes: Seq<NodeView>, i: int, alias: Seq<char>, table: Seq<char>)
    requires
        0 <= i < nodes.len(),
        node_alias(nodes[i]) == Some((alias, table)),
        forall|j: int| i < j < nodes.len() ==> !binds(#[trigger] nodes[j], alias),
    ensures
        collected(nodes).aliases.contains_key(alias),
        collected(nodes).aliases[alias] == table,
    decreases nodes.len(),
{
    if i < nodes.len() - 1 {
        lemma_collected_alias(nodes.drop_last(), i, alias, table);
    }
}

} // verus!
