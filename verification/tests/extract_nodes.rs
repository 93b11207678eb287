use sql_inspector::collector::{collect, ExtractionState};
use sql_inspector::syntax::{
    AssignmentTarget, ColumnAssignment, Expression, FromClause, Identifier, Node, ProjectionItem,
    QueryBody, StatementNode, TableReference,
};
use sql_inspector::{extract, QueryType};

fn name(value: &str) -> Identifier {
    Identifier::new(value)
}

fn quoted(value: &str) -> Identifier {
    Identifier { value: value.to_string(), text: format!("\"{}\"", value) }
}

fn names(values: &[&str]) -> Vec<Identifier> {
    values.iter().map(|v| name(v)).collect()
}

fn table(table: &str, alias: Option<&str>) -> Node {
    Node::TableFactor(TableReference::Table {
        name: table.to_string(),
        alias: alias.map(name),
    })
}

fn named(table: &str) -> TableReference {
    TableReference::Table { name: table.to_string(), alias: None }
}

fn select(projection: Vec<ProjectionItem>) -> Node {
    Node::Statement(StatementNode::Query { body: QueryBody::Select { projection } })
}

#[test]
fn no_nodes() {
    let res = extract(&vec![]);
    assert!(res.tables.is_empty());
    assert!(res.columns.is_empty());
    assert_eq!(res.target_table, "");
    assert_eq!(res.query_type, QueryType::SELECT);
}

#[test]
fn select_from_nodes() {
    let res = extract(&vec![
        select(vec![ProjectionItem::UnnamedExpr(Expression::Identifier(name("id")))]),
        Node::Expr(Expression::Identifier(name("id"))),
        table("users", None),
        Node::Relation(names(&["users"])),
        Node::Expr(Expression::Other),
        Node::Expr(Expression::Identifier(name("age"))),
    ]);
    assert_eq!(res.tables, vec!["users"]);
    assert_eq!(res.columns, vec!["age", "id"]);
    assert_eq!(res.target_table, "");
    assert_eq!(res.query_type, QueryType::SELECT);
}

#[test]
fn projection_rule() {
    let res = extract(&vec![select(vec![
        ProjectionItem::UnnamedExpr(Expression::Identifier(quoted("a b"))),
        ProjectionItem::UnnamedExpr(Expression::CompoundIdentifier(vec![name("t"), quoted("c")])),
        ProjectionItem::ExprWithAlias {
            expr: Expression::Identifier(name("n")),
            alias: name("other"),
        },
        ProjectionItem::ExprWithAlias {
            expr: Expression::CompoundIdentifier(names(&["s", "t", "u"])),
            alias: name("ignored"),
        },
        ProjectionItem::UnnamedExpr(Expression::Other),
        ProjectionItem::UnnamedExpr(Expression::Wildcard),
        ProjectionItem::QualifiedWildcard,
    ])]);
    assert_eq!(res.columns, vec!["a b", "n", "s.t.u", "t.\"c\""]);
    assert!(res.tables.is_empty());
}

#[test]
fn projection_wildcard() {
    let res = extract(&vec![select(vec![
        ProjectionItem::Wildcard,
        ProjectionItem::UnnamedExpr(Expression::Identifier(name("id"))),
        ProjectionItem::Wildcard,
    ])]);
    assert_eq!(res.columns, vec!["*", "id"]);
}

#[test]
fn query_that_is_no_plain_select() {
    let res = extract(&vec![Node::Statement(StatementNode::Query { body: QueryBody::Other })]);
    assert!(res.columns.is_empty());
    assert_eq!(res.query_type, QueryType::SELECT);
}

#[test]
fn expression_rule() {
    let res = extract(&vec![
        Node::Expr(Expression::Wildcard),
        Node::Expr(Expression::Wildcard),
        Node::Expr(Expression::Identifier(quoted("a b"))),
        Node::Expr(Expression::CompoundIdentifier(vec![name("s"), quoted("t"), name("c")])),
        Node::Expr(Expression::CompoundIdentifier(vec![])),
        Node::Expr(Expression::Other),
    ]);
    assert_eq!(res.columns, vec!["", "*", "a b", "s.t.c"]);
    assert_eq!(res.query_type, QueryType::SELECT);
}

#[test]
fn insert_rule() {
    let res = extract(&vec![Node::Statement(StatementNode::Insert {
        table_name: "shop.users".to_string(),
        columns: vec![name("id"), quoted("full name"), name("id")],
    })]);
    assert_eq!(res.tables, vec!["shop.users"]);
    assert_eq!(res.columns, vec!["shop.users.\"full name\"", "shop.users.id"]);
    assert_eq!(res.target_table, "shop.users");
    assert_eq!(res.query_type, QueryType::INSERT);
}

#[test]
fn insert_without_columns() {
    let res = extract(&vec![Node::Statement(StatementNode::Insert {
        table_name: "users".to_string(),
        columns: vec![],
    })]);
    assert_eq!(res.tables, vec!["users"]);
    assert!(res.columns.is_empty());
    assert_eq!(res.target_table, "users");
}

#[test]
fn update_rule() {
    let assignment = |target: AssignmentTarget, value: Expression| ColumnAssignment {
        target,
        value,
    };
    let res = extract(&vec![Node::Statement(StatementNode::Update {
        table: TableReference::Table { name: "t".to_string(), alias: Some(name("x")) },
        assignments: vec![
            assignment(AssignmentTarget::ColumnName(names(&["a"])), Expression::Identifier(name("b"))),
            assignment(
                AssignmentTarget::ColumnName(names(&["x", "y", "z"])),
                Expression::CompoundIdentifier(names(&["p", "q", "r"])),
            ),
            assignment(
                AssignmentTarget::ColumnName(names(&["one"])),
                Expression::CompoundIdentifier(names(&["only"])),
            ),
            assignment(AssignmentTarget::Tuple, Expression::Other),
            assignment(AssignmentTarget::ColumnName(vec![]), Expression::CompoundIdentifier(vec![])),
            assignment(AssignmentTarget::Tuple, Expression::Wildcard),
        ],
    })]);
    assert_eq!(res.tables, vec!["t"]);
    assert_eq!(res.columns, vec!["", "only.only", "p.r", "t.a", "t.b", "t.one", "x.y.z"]);
    assert_eq!(res.target_table, "t");
    assert_eq!(res.query_type, QueryType::UPDATE);
}

#[test]
fn delete_rule() {
    let res = extract(&vec![Node::Statement(StatementNode::Delete {
        from: FromClause::WithFromKeyword(vec![named("t2"), TableReference::Other, named("t1")]),
    })]);
    assert_eq!(res.tables, vec!["t1", "t2"]);
    assert!(res.columns.is_empty());
    assert_eq!(res.target_table, "t2");
    assert_eq!(res.query_type, QueryType::DELETE);
}

#[test]
fn delete_whose_first_reference_is_no_table() {
    let res = extract(&vec![Node::Statement(StatementNode::Delete {
        from: FromClause::WithFromKeyword(vec![TableReference::Other, named("t1")]),
    })]);
    assert_eq!(res.tables, vec!["t1"]);
    assert_eq!(res.target_table, "");
    assert_eq!(res.query_type, QueryType::DELETE);
}

#[test]
fn update_of_what_is_no_table() {
    let res = extract(&vec![Node::Statement(StatementNode::Update {
        table: TableReference::Other,
        assignments: vec![
            ColumnAssignment {
                target: AssignmentTarget::ColumnName(names(&["a"])),
                value: Expression::Identifier(name("b")),
            },
            ColumnAssignment {
                target: AssignmentTarget::ColumnName(names(&["x", "y"])),
                value: Expression::CompoundIdentifier(names(&["p", "q", "r"])),
            },
        ],
    })]);
    assert!(res.tables.is_empty());
    assert_eq!(res.columns, vec!["p.r", "x.y"]);
    assert_eq!(res.target_table, "");
    assert_eq!(res.query_type, QueryType::UPDATE);
}

#[test]
fn quoted_alias_is_matched_as_printed() {
    let res = extract(&vec![
        Node::TableFactor(TableReference::Table {
            name: "t".to_string(),
            alias: Some(quoted("a")),
        }),
        Node::Expr(Expression::CompoundIdentifier(names(&["a", "x"]))),
        select(vec![ProjectionItem::UnnamedExpr(Expression::CompoundIdentifier(vec![
            quoted("a"),
            name("y"),
        ]))]),
    ]);
    assert_eq!(res.columns, vec!["a.x", "t.y"]);
}

#[test]
fn delete_without_tables() {
    let res = extract(&vec![Node::Statement(StatementNode::Delete {
        from: FromClause::WithFromKeyword(vec![]),
    })]);
    assert!(res.tables.is_empty());
    assert_eq!(res.target_table, "");
    assert_eq!(res.query_type, QueryType::DELETE);
    let res = extract(&vec![Node::Statement(StatementNode::Delete {
        from: FromClause::WithoutKeyword,
    })]);
    assert!(res.tables.is_empty());
    assert_eq!(res.target_table, "");
    assert_eq!(res.query_type, QueryType::DELETE);
}

#[test]
fn other_statement_changes_nothing() {
    let res = extract(&vec![
        Node::Statement(StatementNode::Insert { table_name: "t".to_string(), columns: vec![] }),
        Node::Statement(StatementNode::Other),
    ]);
    assert_eq!(res.target_table, "t");
    assert_eq!(res.query_type, QueryType::INSERT);
    let res = extract(&vec![Node::Statement(StatementNode::Other)]);
    assert_eq!(res.target_table, "");
    assert_eq!(res.query_type, QueryType::SELECT);
}

#[test]
fn later_statement_sets_kind_and_target() {
    let res = extract(&vec![
        Node::Statement(StatementNode::Insert { table_name: "a".to_string(), columns: vec![] }),
        Node::Statement(StatementNode::Update { table: named("b"), assignments: vec![] }),
        Node::Statement(StatementNode::Delete { from: FromClause::WithoutKeyword }),
    ]);
    assert_eq!(res.tables, vec!["a", "b"]);
    assert_eq!(res.target_table, "b");
    assert_eq!(res.query_type, QueryType::DELETE);
}

#[test]
fn table_factor_and_relation_rules() {
    let res = extract(&vec![
        table("users", Some("u")),
        table("orders", None),
        Node::TableFactor(TableReference::Other),
        Node::Relation(names(&["shop", "items"])),
        Node::Relation(vec![quoted("My Schema"), name("t")]),
        Node::Relation(vec![]),
    ]);
    assert_eq!(res.tables, vec!["My Schema", "orders", "shop", "users"]);
    assert!(res.columns.is_empty());
}

#[test]
fn aliases_are_resolved_after_the_walk() {
    let res = extract(&vec![
        Node::Expr(Expression::CompoundIdentifier(names(&["u", "id"]))),
        Node::Expr(Expression::CompoundIdentifier(names(&["u", "data", "id"]))),
        Node::Expr(Expression::CompoundIdentifier(names(&["o", "id"]))),
        Node::Expr(Expression::Identifier(name("u"))),
        table("users", Some("u")),
    ]);
    assert_eq!(res.tables, vec!["users"]);
    assert_eq!(res.columns, vec!["o.id", "u", "users.id"]);
}

#[test]
fn alias_is_not_a_table() {
    let res = extract(&vec![
        table("users", Some("u")),
        Node::Expr(Expression::CompoundIdentifier(names(&["u", "id"]))),
    ]);
    assert_eq!(res.tables, vec!["users"]);
    assert_eq!(res.columns, vec!["users.id"]);
}

#[test]
fn state_is_built_node_by_node() {
    let mut state = ExtractionState::new();
    state.pre_visit_statement(&StatementNode::Insert {
        table_name: "t".to_string(),
        columns: names(&["a"]),
    });
    state.pre_visit_table_factor(&TableReference::Table {
        name: "src".to_string(),
        alias: Some(name("s")),
    });
    state.pre_visit_relation(&names(&["src"]));
    state.pre_visit_expr(&Expression::CompoundIdentifier(names(&["s", "b"])));
    state.visit(&Node::Expr(Expression::Wildcard));
    let (columns, tables, aliases, target_table, query_type) = state.into_parts();
    assert_eq!(columns.into_vec(), vec!["*", "s.b", "t.a"]);
    assert_eq!(tables.into_vec(), vec!["src", "t"]);
    assert_eq!(aliases.get("s"), Some(&"src".to_string()));
    assert_eq!(target_table, "t");
    assert_eq!(query_type, Some(QueryType::INSERT));
}

#[test]
fn fresh_state_knows_nothing() {
    let (columns, tables, aliases, target_table, query_type) =
        ExtractionState::new().into_parts();
    assert!(columns.into_vec().is_empty());
    assert!(tables.into_vec().is_empty());
    assert_eq!(aliases.get("a"), None);
    assert_eq!(target_table, "");
    assert_eq!(query_type, None);
}

#[test]
fn collect_reads_all_nodes() {
    let state = collect(&vec![
        table("a", Some("x")),
        table("b", Some("x")),
        Node::Expr(Expression::Identifier(name("c"))),
    ]);
    let (columns, tables, aliases, _, query_type) = state.into_parts();
    assert_eq!(columns.into_vec(), vec!["c"]);
    assert_eq!(tables.into_vec(), vec!["a", "b"]);
    assert_eq!(aliases.get("x"), Some(&"b".to_string()));
    assert_eq!(query_type, None);
}
