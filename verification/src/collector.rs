//! The accumulator that reads the nodes of a statement one by one.

use crate::alias_map::AliasMap;
use crate::result::QueryType;
use crate::rules::{
    assigned_value_columns, assignment_columns, assignment_rule, collected, initial_state,
    insert_column_rule, insert_columns, lemma_union_of_next, lemma_union_of_none, named_table_rule,
    named_tables, projected_expr_columns, projection_columns, projection_item_rule,
    qualified_by_target, star, step, union_of, update_columns, StateView,
};
use crate::string_set::StringSet;
use crate::syntax::{
    printed, values, views, AssignmentTarget, ColumnAssignment, Expression, FromClause,
    Identifier, Node, NodeView, ProjectionItem, QueryBody, StatementNode, TableReference,
};
use crate::text::{dot_join, qualify};
use vstd::prelude::*;
use vstd::string::*;

verus! {

/// The names of `parts` joined by dots: as they are printed where `quoted`
/// is set, else without their quotes.
fn join_parts(parts: &Vec<Identifier>, quoted: bool) -> (r: String)
    ensures
        r@ == dot_join(
            if quoted {
                printed(views(parts@))
            } else {
                values(views(parts@))
            },
        ),
{
    let ghost names = if quoted {
        printed(views(parts@))
    } else {
        values(views(parts@))
    };
    let mut result = String::new();
    let mut index: usize = 0;
    while index < parts.len()
        invariant
            index <= parts.len(),
            names == if quoted {
                printed(views(parts@))
            } else {
                values(views(parts@))
            },
            result@ == dot_join(names.take(index as int)),
        decreases parts.len() - index,
    {
        proof {
            assert(names.take(index + 1).drop_last() =~= names.take(index as int));
            reveal_strlit(".");
        }
        if index > 0 {
            result.append(".");
        }
        if quoted {
            result.append(parts[index].text.as_str());
        } else {
            result.append(parts[index].value.as_str());
        }
        index = index + 1;
    }
    assert(names.take(index as int) =~= names);
    result
}

/// The names of `parts` as they are printed, joined by dots.
pub fn join(parts: &Vec<Identifier>) -> (r: String)
    ensures
        r@ == dot_join(printed(views(parts@))),
{
    join_parts(parts, true)
}

/// The names of `parts` without their quotes, joined by dots.
pub fn join_values(parts: &Vec<Identifier>) -> (r: String)
    ensures
        r@ == dot_join(values(views(parts@))),
{
    join_parts(parts, false)
}

/// The text of the target table, where there is one.
pub open spec fn target_text(target: Option<&String>) -> Option<Seq<char>> {
    match target {
        Some(table) => Some(table@),
        None => None,
    }
}

/// The column `*`.
fn star_column() -> (r: String)
    ensures
        r@ == star(),
{
    proof {
        reveal_strlit("*");
    }
    String::from_str("*")
}

/// The accumulator of one extraction.
pub struct ExtractionState {
    columns: StringSet,
    tables: StringSet,
    aliases: AliasMap,
    target_table: String,
    query_type: Option<QueryType>,
}

impl View for ExtractionState {
    type V = StateView;

    closed spec fn view(&self) -> StateView {
        StateView {
            columns: self.columns@,
            tables: self.tables@,
            aliases: self.aliases@,
            target_table: self.target_table@,
            query_type: self.query_type,
        }
    }
}

impl ExtractionState {
    /// The two sets are in order.
    pub closed spec fn wf(&self) -> bool {
        self.columns.wf() && self.tables.wf()
    }

    /// The state before any node is read.
    pub fn new() -> (r: Self)
        ensures
            r.wf(),
            r@ == initial_state(),
    {
        ExtractionState {
            columns: StringSet::new(),
            tables: StringSet::new(),
            aliases: AliasMap::new(),
            target_table: String::new(),
            query_type: None,
        }
    }

    /// Adds what the projection of a `SELECT` contributes.
    fn record_projection(&mut self, items: &Vec<ProjectionItem>)
        requires
            old(self).wf(),
        ensures
            final(self).wf(),
            final(self)@ == (StateView {
                columns: old(self)@.columns + projection_columns(views(items@)),
                ..old(self)@
            }),
    {
        let ghost before = self@;
        let mut i: usize = 0;
        proof {
            lemma_union_of_none(views(items@), projection_item_rule());
            assert(before.columns + Set::<Seq<char>>::empty() =~= before.columns);
        }
        while i < items.len()
            invariant
                i <= items.len(),
                self.wf(),
                self@ == (StateView {
                    columns: before.columns + projection_columns(views(items@).take(i as int)),
                    ..before
                }),
            decreases items.len() - i,
        {
            proof {
                lemma_union_of_next(views(items@), projection_item_rule(), i as int);
            }
            match &items[i] {
                ProjectionItem::UnnamedExpr(expr) => self.record_projected_expr(expr),
                ProjectionItem::ExprWithAlias { expr, alias: _ } => self.record_projected_expr(
                    expr,
                ),
                ProjectionItem::Wildcard => self.columns.insert(star_column()),
                ProjectionItem::QualifiedWildcard => {},
            }
            assert(self@.columns =~= before.columns + projection_columns(
                views(items@).take(i + 1),
            ));
            i = i + 1;
        }
        assert(views(items@).take(i as int) =~= views(items@));
    }

    /// Adds what the expression of a projection item contributes.
    fn record_projected_expr(&mut self, expr: &Expression)
        requires
            old(self).wf(),
        ensures
            final(self).wf(),
            final(self)@ == (StateView {
                columns: old(self)@.columns + projected_expr_columns(expr@),
                ..old(self)@
            }),
    {
        let ghost before = self.columns@;
        match expr {
            Expression::Identifier(ident) => self.columns.insert(ident.value.clone()),
            Expression::CompoundIdentifier(parts) => self.columns.insert(join(parts)),
            _ => {},
        }
        assert(self.columns@ =~= before + projected_expr_columns(expr@));
    }

    /// Adds the declared columns of an `INSERT` into `table`.
    fn record_insert_columns(&mut self, table: &String, columns: &Vec<Identifier>)
        requires
            old(self).wf(),
        ensures
            final(self).wf(),
            final(self)@ == (StateView {
                columns: old(self)@.columns + insert_columns(table@, views(columns@)),
                ..old(self)@
            }),
    {
        let ghost before = self.columns@;
        let mut i: usize = 0;
        proof {
            lemma_union_of_none(views(columns@), insert_column_rule(table@));
        }
        while i < columns.len()
            invariant
                i <= columns.len(),
                self.columns.wf(),
                self.columns@ =~= before + insert_columns(table@, views(columns@).take(i as int)),
                self.tables == old(self).tables,
                self.aliases == old(self).aliases,
                self.target_table == old(self).target_table,
                self.query_type == old(self).query_type,
            decreases columns.len() - i,
        {
            proof {
                lemma_union_of_next(views(columns@), insert_column_rule(table@), i as int);
            }
            self.columns.insert(qualify(table.as_str(), columns[i].text.as_str()));
            i = i + 1;
        }
        assert(views(columns@).take(i as int) =~= views(columns@));
    }

    /// Adds the column `name` qualified by the target table, if there is one.
    fn record_qualified(&mut self, target: Option<&String>, name: &String)
        requires
            old(self).wf(),
        ensures
            final(self).wf(),
            final(self)@ == (StateView {
                columns: old(self)@.columns + qualified_by_target(target_text(target), name@),
                ..old(self)@
            }),
    {
        let ghost before = self.columns@;
        match target {
            Some(table) => self.columns.insert(qualify(table.as_str(), name.as_str())),
            None => {},
        }
        assert(self.columns@ =~= before + qualified_by_target(target_text(target), name@));
    }

    /// Adds what one assignment of an `UPDATE` with the target `target`
    /// contributes.
    fn record_assignment(&mut self, target: Option<&String>, assignment: &ColumnAssignment)
        requires
            old(self).wf(),
        ensures
            final(self).wf(),
            final(self)@ == (StateView {
                columns: old(self)@.columns + assignment_columns(
                    target_text(target),
                    assignment@,
                ),
                ..old(self)@
            }),
    {
        let ghost before = self@.columns;
        match &assignment.value {
            Expression::CompoundIdentifier(parts) => {
                if parts.len() > 0 {
                    let first = &parts[0];
                    let last = &parts[parts.len() - 1];
                    self.columns.insert(qualify(first.text.as_str(), last.text.as_str()));
                }
            },
            Expression::Identifier(ident) => self.record_qualified(target, &ident.text),
            _ => {},
        }
        assert(self@.columns =~= before + assigned_value_columns(
            target_text(target),
            assignment.value@,
        ));
        match &assignment.target {
            AssignmentTarget::ColumnName(parts) => {
                if parts.len() == 1 {
                    self.record_qualified(target, &parts[0].text);
                } else {
                    self.columns.insert(join(parts));
                }
            },
            AssignmentTarget::Tuple => {},
        }
        assert(self@.columns =~= before + assignment_columns(target_text(target), assignment@));
    }

    /// Adds what the assignments of an `UPDATE` with the target `target`
    /// contribute.
    fn record_assignments(&mut self, target: Option<&String>, assignments: &Vec<ColumnAssignment>)
        requires
            old(self).wf(),
        ensures
            final(self).wf(),
            final(self)@ == (StateView {
                columns: old(self)@.columns + update_columns(
                    target_text(target),
                    views(assignments@),
                ),
                ..old(self)@
            }),
    {
        let ghost before = self@;
        let ghost rule = assignment_rule(target_text(target));
        let mut i: usize = 0;
        proof {
            lemma_union_of_none(views(assignments@), rule);
            assert(before.columns + Set::<Seq<char>>::empty() =~= before.columns);
        }
        while i < assignments.len()
            invariant
                i <= assignments.len(),
                self.wf(),
                rule == assignment_rule(target_text(target)),
                self@ == (StateView {
                    columns: before.columns + union_of(views(assignments@).take(i as int), rule),
                    ..before
                }),
            decreases assignments.len() - i,
        {
            proof {
                lemma_union_of_next(views(assignments@), rule, i as int);
            }
            self.record_assignment(target, &assignments[i]);
            assert(self@.columns =~= before.columns + union_of(
                views(assignments@).take(i + 1),
                rule,
            ));
            i = i + 1;
        }
        assert(views(assignments@).take(i as int) =~= views(assignments@));
    }

    /// Adds the table that a table reference names, if it names one.
    fn record_named_table(&mut self, reference: &TableReference)
        requires
            old(self).wf(),
        ensures
            final(self).wf(),
            final(self)@ == (StateView {
                tables: old(self)@.tables + named_tables(reference@),
                ..old(self)@
            }),
    {
        let ghost before = self.tables@;
        match reference {
            TableReference::Table { name, alias: _ } => self.tables.insert(name.clone()),
            TableReference::Other => {},
        }
        assert(self.tables@ =~= before + named_tables(reference@));
    }

    /// Adds the tables that a `DELETE` names.
    fn record_tables(&mut self, tables: &Vec<TableReference>)
        requires
            old(self).wf(),
        ensures
            final(self).wf(),
            final(self)@ == (StateView {
                tables: old(self)@.tables + union_of(views(tables@), named_table_rule()),
                ..old(self)@
            }),
    {
        let ghost before = self@;
        let mut i: usize = 0;
        proof {
            lemma_union_of_none(views(tables@), named_table_rule());
            assert(before.tables + Set::<Seq<char>>::empty() =~= before.tables);
        }
        while i < tables.len()
            invariant
                i <= tables.len(),
                self.wf(),
                self@ == (StateView {
                    tables: before.tables + union_of(
                        views(tables@).take(i as int),
                        named_table_rule(),
                    ),
                    ..before
                }),
            decreases tables.len() - i,
        {
            proof {
                lemma_union_of_next(views(tables@), named_table_rule(), i as int);
            }
            self.record_named_table(&tables[i]);
            assert(self@.tables =~= before.tables + union_of(
                views(tables@).take(i + 1),
                named_table_rule(),
            ));
            i = i + 1;
        }
        assert(views(tables@).take(i as int) =~= views(tables@));
    }

    /// Reads a statement: its kind, for a write its target, and the columns
    /// and tables that the rule of its kind finds in it.
    pub fn pre_visit_statement(&mut self, statement: &StatementNode)
        requires
            old(self).wf(),
        ensures
            final(self).wf(),
            final(self)@ == step(old(self)@, NodeView::Statement(statement@)),
    {
        let ghost before = self@;
        match statement {
            StatementNode::Query { body } => {
                self.query_type = Some(QueryType::SELECT);
                match body {
                    QueryBody::Select { projection } => self.record_projection(projection),
                    QueryBody::Other => {},
                }
            },
            StatementNode::Insert { table_name, columns } => {
                self.query_type = Some(QueryType::INSERT);
                self.tables.insert(table_name.clone());
                self.target_table = table_name.clone();
                self.record_insert_columns(table_name, columns);
            },
            StatementNode::Update { table, assignments } => {
                self.query_type = Some(QueryType::UPDATE);
                match table {
                    TableReference::Table { name, alias: _ } => {
                        self.target_table = name.clone();
                        self.record_assignments(Some(name), assignments);
                    },
                    TableReference::Other => self.record_assignments(None, assignments),
                }
                self.record_named_table(table);
            },
            StatementNode::Delete { from } => {
                self.query_type = Some(QueryType::DELETE);
                match from {
                    FromClause::WithFromKeyword(tables) => {
                        if tables.len() > 0 {
                            match &tables[0] {
                                TableReference::Table { name, alias: _ } => {
                                    self.target_table = name.clone();
                                },
                                TableReference::Other => {},
                            }
                        }
                        self.record_tables(tables);
                    },
                    FromClause::WithoutKeyword => {},
                }
            },
            StatementNode::Other => {},
        }
        proof {
            let after = step(before, NodeView::Statement(statement@));
            assert(self@.columns =~= after.columns);
            assert(self@.tables =~= after.tables);
        }
    }

    /// Reads a table in `FROM` or `JOIN` position: its name is a table, and
    /// its alias, where it has one, stands for that name from now on.
    pub fn pre_visit_table_factor(&mut self, table_factor: &TableReference)
        requires
            old(self).wf(),
        ensures
            final(self).wf(),
            final(self)@ == step(old(self)@, NodeView::TableFactor(table_factor@)),
    {
        let ghost before = self@;
        match table_factor {
            TableReference::Table { name, alias } => {
                self.tables.insert(name.clone());
                match alias {
                    Some(alias) => self.aliases.insert(alias.text.clone(), name.clone()),
                    None => {},
                }
            },
            TableReference::Other => {},
        }
        proof {
            let after = step(before, NodeView::TableFactor(table_factor@));
            assert(self@.columns =~= after.columns);
            assert(self@.tables =~= after.tables);
        }
    }

    /// Reads a reference to an object: the first part of its name is a table.
    pub fn pre_visit_relation(&mut self, relation: &Vec<Identifier>)
        requires
            old(self).wf(),
        ensures
            final(self).wf(),
            final(self)@ == step(old(self)@, NodeView::Relation(views(relation@))),
    {
        let ghost before = self@;
        if relation.len() > 0 {
            self.tables.insert(relation[0].value.clone());
        }
        proof {
            let after = step(before, NodeView::Relation(views(relation@)));
            assert(self@.columns =~= after.columns);
            assert(self@.tables =~= after.tables);
        }
    }

    /// Reads an expression: a wildcard, a name or a dotted name is a column.
    pub fn pre_visit_expr(&mut self, expr: &Expression)
        requires
            old(self).wf(),
        ensures
            final(self).wf(),
            final(self)@ == step(old(self)@, NodeView::Expr(expr@)),
    {
        let ghost before = self@;
        match expr {
            Expression::Wildcard => self.columns.insert(star_column()),
            Expression::Identifier(ident) => self.columns.insert(ident.value.clone()),
            Expression::CompoundIdentifier(parts) => self.columns.insert(join_values(parts)),
            Expression::Other => {},
        }
        proof {
            let after = step(before, NodeView::Expr(expr@));
            assert(self@.columns =~= after.columns);
            assert(self@.tables =~= after.tables);
        }
    }

    /// Reads one node.
    pub fn visit(&mut self, node: &Node)
        requires
            old(self).wf(),
        ensures
            final(self).wf(),
            final(self)@ == step(old(self)@, node@),
    {
        match node {
            Node::Statement(statement) => self.pre_visit_statement(statement),
            Node::TableFactor(table_factor) => self.pre_visit_table_factor(table_factor),
            Node::Relation(relation) => self.pre_visit_relation(relation),
            Node::Expr(expr) => self.pre_visit_expr(expr),
        }
    }

    /// The state taken apart: columns, tables, aliases, target table and kind.
    pub fn into_parts(self) -> (r: (StringSet, StringSet, AliasMap, String, Option<QueryType>))
        requires
            self.wf(),
        ensures
            r.0.wf(),
            r.1.wf(),
            r.0@ == self@.columns,
            r.1@ == self@.tables,
            r.2@ == self@.aliases,
            r.3@ == self@.target_table,
            r.4 == self@.query_type,
    {
        (self.columns, self.tables, self.aliases, self.target_table, self.query_type)
    }
}

/// Reads the nodes of a statement in their order.
pub fn collect(nodes: &Vec<Node>) -> (r: ExtractionState)
    ensures
        r.wf(),
        r@ == collected(views(nodes@)),
{
    let mut state = ExtractionState::new();
    let mut i: usize = 0;
    while i < nodes.len()
        invariant
            i <= nodes.len(),
            state.wf(),
            state@ == collected(views(nodes@).take(i as int)),
        decreases nodes.len() - i,
    {
        proof {
            assert(views(nodes@).take(i + 1).drop_last() =~= views(nodes@).take(i as int));
        }
        state.visit(&nodes[i]);
        i = i + 1;
    }
    state
}

} // verus!
