//! What the extraction reads of a parsed statement, as plain values.
//!
//! A statement's syntax tree comes as the list of its nodes in the order of a
//! pre-order walk. Each node holds only the parts that some rule looks at.
//! Every type has a view, in which strings are sequences of characters and
//! lists are sequences; the rules are stated over the views.

use vstd::prelude::*;

verus! {

/// The views of the items of a list, in the list's order.
pub open spec fn views<T: View>(items: Seq<T>) -> Seq<T::V> {
    items.map_values(|item: T| item@)
}

/// One name token.
#[derive(Debug, Clone, PartialEq, Eq)]
pub struct Identifier {
    /// The name without quotes.
    pub value: String,
    /// The name as the statement is printed: inside its quotes, where it has any.
    pub text: String,
}

/// An `Identifier` as a mathematical value.
pub struct IdentifierView {
    pub value: Seq<char>,
    pub text: Seq<char>,
}

impl View for Identifier {
    type V = IdentifierView;

    open spec fn view(&self) -> IdentifierView {
        IdentifierView { value: self.value@, text: self.text@ }
    }
}

impl Identifier {
    /// A name written without quotes.
    pub fn new(value: &str) -> (r: Identifier)
        ensures
            r@ == (IdentifierView { value: value@, text: value@ }),
    {
        Identifier { value: value.to_owned(), text: value.to_owned() }
    }
}

/// The bare names of a chain of name tokens.
pub open spec fn values(parts: Seq<IdentifierView>) -> Seq<Seq<char>> {
    parts.map_values(|part: IdentifierView| part.value)
}

/// The printed names of a chain of name tokens.
pub open spec fn printed(parts: Seq<IdentifierView>) -> Seq<Seq<char>> {
    parts.map_values(|part: IdentifierView| part.text)
}

/// An expression.
#[derive(Debug, Clone, PartialEq, Eq)]
pub enum Expression {
    /// A single name, such as `age`.
    Identifier(Identifier),
    /// A dotted name, such as `users.age`.
    CompoundIdentifier(Vec<Identifier>),
    /// The expression `*`.
    Wildcard,
    /// Any other expression.
    Other,
}

/// An `Expression` as a mathematical value.
pub enum ExpressionView {
    Identifier(IdentifierView),
    CompoundIdentifier(Seq<IdentifierView>),
    Wildcard,
    Other,
}

impl View for Expression {
    type V = ExpressionView;

    open spec fn view(&self) -> ExpressionView {
        match self {
            Expression::Identifier(ident) => ExpressionView::Identifier(ident@),
            Expression::CompoundIdentifier(parts) => ExpressionView::CompoundIdentifier(
                views(parts@),
            ),
            Expression::Wildcard => ExpressionView::Wildcard,
            Expression::Other => ExpressionView::Other,
        }
    }
}

/// One item of the list that follows `SELECT`.
#[derive(Debug, Clone, PartialEq, Eq)]
pub enum ProjectionItem {
    /// An expression without an alias.
    UnnamedExpr(Expression),
    /// An expression followed by an alias.
    ExprWithAlias { expr: Expression, alias: Identifier },
    /// `table.*`
    QualifiedWildcard,
    /// `*`
    Wildcard,
}

/// A `ProjectionItem` as a mathematical value.
pub enum ProjectionItemView {
    UnnamedExpr(ExpressionView),
    ExprWithAlias { expr: ExpressionView, alias: IdentifierView },
    QualifiedWildcard,
    Wildcard,
}

impl View for ProjectionItem {
    type V = ProjectionItemView;

    open spec fn view(&self) -> ProjectionItemView {
        match self {
            ProjectionItem::UnnamedExpr(expr) => ProjectionItemView::UnnamedExpr(expr@),
            ProjectionItem::ExprWithAlias { expr, alias } => ProjectionItemView::ExprWithAlias {
                expr: expr@,
                alias: alias@,
            },
            ProjectionItem::QualifiedWildcard => ProjectionItemView::QualifiedWildcard,
            ProjectionItem::Wildcard => ProjectionItemView::Wildcard,
        }
    }
}

/// The body of a query.
#[derive(Debug, Clone, PartialEq, Eq)]
pub enum QueryBody {
    /// A plain `SELECT` with its projection.
    Select { projection: Vec<ProjectionItem> },
    /// A set operation, a parenthesised query, a list of values and the like.
    Other,
}

/// A `QueryBody` as a mathematical value.
pub enum QueryBodyView {
    Select { projection: Seq<ProjectionItemView> },
    Other,
}

impl View for QueryBody {
    type V = QueryBodyView;

    open spec fn view(&self) -> QueryBodyView {
        match self {
            QueryBody::Select { projection } => QueryBodyView::Select {
                projection: views(projection@),
            },
            QueryBody::Other => QueryBodyView::Other,
        }
    }
}

/// The left-hand side of an assignment in `UPDATE`.
#[derive(Debug, Clone, PartialEq, Eq)]
pub enum AssignmentTarget {
    /// One column, by its name parts.
    ColumnName(Vec<Identifier>),
    /// A tuple of columns.
    Tuple,
}

/// An `AssignmentTarget` as a mathematical value.
pub enum AssignmentTargetView {
    ColumnName(Seq<IdentifierView>),
    Tuple,
}

impl View for AssignmentTarget {
    type V = AssignmentTargetView;

    open spec fn view(&self) -> AssignmentTargetView {
        match self {
            AssignmentTarget::ColumnName(parts) => AssignmentTargetView::ColumnName(views(parts@)),
            AssignmentTarget::Tuple => AssignmentTargetView::Tuple,
        }
    }
}

/// An assignment `target = value` of `UPDATE`.
#[derive(Debug, Clone, PartialEq, Eq)]
pub struct ColumnAssignment {
    pub target: AssignmentTarget,
    pub value: Expression,
}

/// A `ColumnAssignment` as a mathematical value.
pub struct ColumnAssignmentView {
    pub target: AssignmentTargetView,
    pub value: ExpressionView,
}

impl View for ColumnAssignment {
    type V = ColumnAssignmentView;

    open spec fn view(&self) -> ColumnAssignmentView {
        ColumnAssignmentView { target: self.target@, value: self.value@ }
    }
}

/// The tables that `DELETE` names.
#[derive(Debug, Clone, PartialEq, Eq)]
pub enum FromClause {
    /// The tables listed after the keyword `FROM`, without the tables joined
    /// to them.
    WithFromKeyword(Vec<TableReference>),
    /// The statement has no keyword `FROM`.
    WithoutKeyword,
}

/// A `FromClause` as a mathematical value.
pub enum FromClauseView {
    WithFromKeyword(Seq<TableReferenceView>),
    WithoutKeyword,
}

impl View for FromClause {
    type V = FromClauseView;

    open spec fn view(&self) -> FromClauseView {
        match self {
            FromClause::WithFromKeyword(tables) => FromClauseView::WithFromKeyword(views(tables@)),
            FromClause::WithoutKeyword => FromClauseView::WithoutKeyword,
        }
    }
}

/// A statement.
#[derive(Debug, Clone, PartialEq, Eq)]
pub enum StatementNode {
    /// `SELECT` and the other queries.
    Query { body: QueryBody },
    /// `INSERT`, with the table as it is printed and the declared columns.
    Insert { table_name: String, columns: Vec<Identifier> },
    /// `UPDATE`, with the table that it updates, without the tables joined
    /// to it, and the assignments of `SET`.
    Update { table: TableReference, assignments: Vec<ColumnAssignment> },
    /// `DELETE`
    Delete { from: FromClause },
    /// Any other statement.
    Other,
}

/// A `StatementNode` as a mathematical value.
pub enum StatementNodeView {
    Query { body: QueryBodyView },
    Insert { table_name: Seq<char>, columns: Seq<IdentifierView> },
    Update { table: TableReferenceView, assignments: Seq<ColumnAssignmentView> },
    Delete { from: FromClauseView },
    Other,
}

impl View for StatementNode {
    type V = StatementNodeView;

    open spec fn view(&self) -> StatementNodeView {
        match self {
            StatementNode::Query { body } => StatementNodeView::Query { body: body@ },
            StatementNode::Insert { table_name, columns } => StatementNodeView::Insert {
                table_name: table_name@,
                columns: views(columns@),
            },
            StatementNode::Update { table, assignments } => StatementNodeView::Update {
                table: table@,
                assignments: views(assignments@),
            },
            StatementNode::Delete { from } => StatementNodeView::Delete { from: from@ },
            StatementNode::Other => StatementNodeView::Other,
        }
    }
}

/// A table reference: a table in `FROM` or `JOIN` position, or the table of
/// an `UPDATE` or a `DELETE`.
#[derive(Debug, Clone, PartialEq, Eq)]
pub enum TableReference {
    /// A named table: its name as it is printed, and the name of its alias,
    /// if it has one.
    Table { name: String, alias: Option<Identifier> },
    /// A subquery, a table function and the like.
    Other,
}

/// A `TableReference` as a mathematical value.
pub enum TableReferenceView {
    Table { name: Seq<char>, alias: Option<IdentifierView> },
    Other,
}

impl View for TableReference {
    type V = TableReferenceView;

    open spec fn view(&self) -> TableReferenceView {
        match self {
            TableReference::Table { name, alias } => TableReferenceView::Table {
                name: name@,
                alias: match alias {
                    Some(alias) => Some(alias@),
                    None => None,
                },
            },
            TableReference::Other => TableReferenceView::Other,
        }
    }
}

/// One node of a statement's syntax tree.
#[derive(Debug, Clone, PartialEq, Eq)]
pub enum Node {
    Statement(StatementNode),
    TableFactor(TableReference),
    /// A reference to a table or another object, by its name parts.
    Relation(Vec<Identifier>),
    Expr(Expression),
}

/// A `Node` as a mathematical value.
pub enum NodeView {
    Statement(StatementNodeView),
    TableFactor(TableReferenceView),
    Relation(Seq<IdentifierView>),
    Expr(ExpressionView),
}

impl View for Node {
    type V = NodeView;

    open spec fn view(&self) -> NodeView {
        match self {
            Node::Statement(statement) => NodeView::Statement(statement@),
            Node::TableFactor(table_factor) => NodeView::TableFactor(table_factor@),
            Node::Relation(parts) => NodeView::Relation(views(parts@)),
            Node::Expr(expr) => NodeView::Expr(expr@),
        }
    }
}

} // verus!
