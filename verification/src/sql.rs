//! SQL text read with the `sqlparser` crate.
//!
//! The crate parses the text and walks the syntax trees. What this module adds
//! is the passage from its nodes to the plain values of [`crate::syntax`].
//! Nothing is proved of the parser: the functions marked `external_body` and
//! the type declarations above them are taken on trust.

use crate::guard::{guarded, is_guarded, kind_at, Lead, Shape, TokenKind, WordKind};
use crate::syntax::{
    views, AssignmentTarget, ColumnAssignment, Expression, FromClause, Identifier, Node, NodeView,
    ProjectionItem, QueryBody, StatementNode, TableReference,
};
use core::ops::ControlFlow;
use sqlparser::ast::Visit;
use sqlparser::keywords::Keyword;
use sqlparser::tokenizer::Token;
use vstd::prelude::*;
use vstd::string::*;

verus! {

/// A statement as `sqlparser` parses it. Nothing of its inside is known here.
#[verifier::external_type_specification]
#[verifier::external_body]
pub struct ExStatement(sqlparser::ast::Statement);

/// The body of a query as `sqlparser` parses it.
#[verifier::external_type_specification]
#[verifier::external_body]
pub struct ExSetExpr(sqlparser::ast::SetExpr);

/// A projection item as `sqlparser` parses it.
#[verifier::external_type_specification]
#[verifier::external_body]
pub struct ExSelectItem(sqlparser::ast::SelectItem);

/// An expression as `sqlparser` parses it.
#[verifier::external_type_specification]
#[verifier::external_body]
pub struct ExExpr(sqlparser::ast::Expr);

/// A name token as `sqlparser` parses it.
#[verifier::external_type_specification]
#[verifier::external_body]
pub struct ExIdent(sqlparser::ast::Ident);

/// A name of several parts as `sqlparser` parses it.
#[verifier::external_type_specification]
#[verifier::external_body]
pub struct ExObjectName(sqlparser::ast::ObjectName);

/// An assignment of `UPDATE` as `sqlparser` parses it.
#[verifier::external_type_specification]
#[verifier::external_body]
pub struct ExAssignment(sqlparser::ast::Assignment);

/// The tables of a `DELETE` as `sqlparser` parses them.
#[verifier::external_type_specification]
#[verifier::external_body]
pub struct ExFromTable(sqlparser::ast::FromTable);

/// A table with the tables joined to it, as `sqlparser` parses it.
#[verifier::external_type_specification]
#[verifier::external_body]
pub struct ExTableWithJoins(sqlparser::ast::TableWithJoins);

/// A table in `FROM` or `JOIN` position as `sqlparser` parses it.
#[verifier::external_type_specification]
#[verifier::external_body]
pub struct ExTableFactor(sqlparser::ast::TableFactor);

/// The alias of a table as `sqlparser` parses it.
#[verifier::external_type_specification]
#[verifier::external_body]
pub struct ExTableAlias(sqlparser::ast::TableAlias);

/// The error of `sqlparser`'s parser.
#[verifier::external_type_specification]
#[verifier::external_body]
pub struct ExParserError(sqlparser::parser::ParserError);

/// `sqlparser`'s parser: the tokens of a text, with the place up to which
/// they have been read.
#[verifier::external_type_specification]
#[verifier::external_body]
pub struct ExParser<'a>(sqlparser::parser::Parser<'a>);

/// Why a text could not be read as SQL.
#[derive(Debug, Clone, PartialEq, Eq)]
pub enum ParseFailure {
    /// The text could not be cut into tokens.
    Tokenizer(String),
    /// The tokens make no statement.
    Parser(String),
    /// The text is nested too deeply.
    RecursionLimitExceeded,
}

/// The parts of a statement that the extraction reads.
enum StatementParts<'a> {
    Query(&'a sqlparser::ast::SetExpr),
    Insert(&'a sqlparser::ast::ObjectName, &'a Vec<sqlparser::ast::Ident>),
    Update(&'a sqlparser::ast::TableWithJoins, &'a Vec<sqlparser::ast::Assignment>),
    Delete(&'a sqlparser::ast::FromTable),
    Other,
}

/// The parts of a projection item.
enum SelectItemParts<'a> {
    UnnamedExpr(&'a sqlparser::ast::Expr),
    ExprWithAlias(&'a sqlparser::ast::Expr, &'a sqlparser::ast::Ident),
    QualifiedWildcard,
    Wildcard,
}

/// The parts of an expression.
enum ExprParts<'a> {
    Identifier(&'a sqlparser::ast::Ident),
    CompoundIdentifier(&'a Vec<sqlparser::ast::Ident>),
    Wildcard,
    Other,
}

/// The parts of an assignment's left-hand side: of a column its name parts.
enum AssignmentTargetParts<'a> {
    ColumnName(&'a Vec<sqlparser::ast::Ident>),
    Tuple,
}

/// The parts of a table in `FROM` or `JOIN` position.
enum TableFactorParts<'a> {
    Table(&'a sqlparser::ast::ObjectName, &'a Option<sqlparser::ast::TableAlias>),
    Other,
}

/// Tells the variants of `sqlparser::ast::Statement` apart and hands out the
/// fields that the extraction reads: of a query its body, of an `INSERT` its
/// `table_name` and `columns`, of an `UPDATE` its `table` and `assignments`,
/// of a `DELETE` its `from`.
#[verifier::external_body]
fn statement_parts<'a>(statement: &'a sqlparser::ast::Statement) -> StatementParts<'a> {
    match statement {
        sqlparser::ast::Statement::Query(query) => StatementParts::Query(&query.body),
        sqlparser::ast::Statement::Insert(insert) => StatementParts::Insert(
            &insert.table_name,
            &insert.columns,
        ),
        sqlparser::ast::Statement::Update { table, assignments, .. } => StatementParts::Update(
            table,
            assignments,
        ),
        sqlparser::ast::Statement::Delete(delete) => StatementParts::Delete(&delete.from),
        _ => StatementParts::Other,
    }
}

/// The projection of a `sqlparser::ast::SetExpr` that is a plain `SELECT`;
/// `None` for every other variant.
#[verifier::external_body]
fn select_projection<'a>(body: &'a sqlparser::ast::SetExpr) -> Option<
    &'a Vec<sqlparser::ast::SelectItem>,
> {
    match body {
        sqlparser::ast::SetExpr::Select(select) => Some(&select.projection),
        _ => None,
    }
}

/// Tells the variants of `sqlparser::ast::SelectItem` apart.
#[verifier::external_body]
fn select_item_parts<'a>(item: &'a sqlparser::ast::SelectItem) -> SelectItemParts<'a> {
    match item {
        sqlparser::ast::SelectItem::UnnamedExpr(expr) => SelectItemParts::UnnamedExpr(expr),
        sqlparser::ast::SelectItem::ExprWithAlias { expr, alias } => SelectItemParts::ExprWithAlias(
            expr,
            alias,
        ),
        sqlparser::ast::SelectItem::QualifiedWildcard(..) => SelectItemParts::QualifiedWildcard,
        sqlparser::ast::SelectItem::Wildcard(..) => SelectItemParts::Wildcard,
    }
}

/// Tells the variants `Identifier`, `CompoundIdentifier` and `Wildcard` of
/// `sqlparser::ast::Expr` from each other and from the rest.
#[verifier::external_body]
fn expr_parts<'a>(expr: &'a sqlparser::ast::Expr) -> ExprParts<'a> {
    match expr {
        sqlparser::ast::Expr::Identifier(ident) => ExprParts::Identifier(ident),
        sqlparser::ast::Expr::CompoundIdentifier(parts) => ExprParts::CompoundIdentifier(parts),
        sqlparser::ast::Expr::Wildcard => ExprParts::Wildcard,
        _ => ExprParts::Other,
    }
}

/// A `sqlparser::ast::Ident` as plain values: its field `value`, and its
/// text as the crate's `Display` prints it, which puts the value between its
/// quotes. `Display` panics on a quote other than `"`, `'`, a backtick and
/// `[`; the parser, from which every identifier here comes, sets no other.
#[verifier::external_body]
fn ident_of(ident: &sqlparser::ast::Ident) -> Identifier {
    Identifier { value: ident.value.clone(), text: ident.to_string() }
}

/// The name parts of a `sqlparser::ast::ObjectName`: its one field.
#[verifier::external_body]
fn object_name_parts<'a>(name: &'a sqlparser::ast::ObjectName) -> &'a Vec<sqlparser::ast::Ident> {
    &name.0
}

/// A `sqlparser::ast::ObjectName` as the crate's `Display` prints it.
#[verifier::external_body]
fn object_name_text(name: &sqlparser::ast::ObjectName) -> String {
    name.to_string()
}

/// The field `relation` of a `sqlparser::ast::TableWithJoins`: the table
/// itself, without the tables joined to it.
#[verifier::external_body]
fn table_relation<'a>(
    table: &'a sqlparser::ast::TableWithJoins,
) -> &'a sqlparser::ast::TableFactor {
    &table.relation
}

/// The field `name` of a `sqlparser::ast::TableAlias`: the alias without the
/// column list that may follow it.
#[verifier::external_body]
fn table_alias_name<'a>(alias: &'a sqlparser::ast::TableAlias) -> &'a sqlparser::ast::Ident {
    &alias.name
}

/// The field `value` of a `sqlparser::ast::Assignment`.
#[verifier::external_body]
fn assignment_value<'a>(assignment: &'a sqlparser::ast::Assignment) -> &'a sqlparser::ast::Expr {
    &assignment.value
}

/// Tells the variants of the field `target` of a `sqlparser::ast::Assignment`
/// apart and hands out the name parts of a column name: the one field of its
/// `sqlparser::ast::ObjectName`.
#[verifier::external_body]
fn assignment_target_parts<'a>(
    assignment: &'a sqlparser::ast::Assignment,
) -> AssignmentTargetParts<'a> {
    match &assignment.target {
        sqlparser::ast::AssignmentTarget::ColumnName(name) => AssignmentTargetParts::ColumnName(
            &name.0,
        ),
        sqlparser::ast::AssignmentTarget::Tuple(..) => AssignmentTargetParts::Tuple,
    }
}

/// The tables of a `sqlparser::ast::FromTable` that has the keyword `FROM`;
/// `None` for one without.
#[verifier::external_body]
fn tables_after_from<'a>(from: &'a sqlparser::ast::FromTable) -> Option<
    &'a Vec<sqlparser::ast::TableWithJoins>,
> {
    match from {
        sqlparser::ast::FromTable::WithFromKeyword(tables) => Some(tables),
        sqlparser::ast::FromTable::WithoutKeyword(..) => None,
    }
}

/// Tells the variant `Table` of `sqlparser::ast::TableFactor` from the rest
/// and hands out its fields `name` and `alias`.
#[verifier::external_body]
fn table_factor_parts<'a>(table_factor: &'a sqlparser::ast::TableFactor) -> TableFactorParts<'a> {
    match table_factor {
        sqlparser::ast::TableFactor::Table { name, alias, .. } => TableFactorParts::Table(
            name,
            alias,
        ),
        _ => TableFactorParts::Other,
    }
}

/// Tells the variants of `sqlparser::parser::ParserError` apart.
#[verifier::external_body]
fn parse_failure(error: sqlparser::parser::ParserError) -> ParseFailure {
    match error {
        sqlparser::parser::ParserError::TokenizerError(message) => ParseFailure::Tokenizer(message),
        sqlparser::parser::ParserError::ParserError(message) => ParseFailure::Parser(message),
        sqlparser::parser::ParserError::RecursionLimitExceeded => {
            ParseFailure::RecursionLimitExceeded
        },
    }
}

/// The name tokens of a chain, one by one.
fn idents_of(parts: &Vec<sqlparser::ast::Ident>) -> (idents: Vec<Identifier>)
    ensures
        idents.len() == parts.len(),
{
    let mut idents: Vec<Identifier> = Vec::new();
    let mut i: usize = 0;
    while i < parts.len()
        invariant
            i <= parts.len(),
            idents.len() == i,
        decreases parts.len() - i,
    {
        idents.push(ident_of(&parts[i]));
        i = i + 1;
    }
    idents
}

/// Whether `expr` is of the variant of `parts`, a dotted name with as many
/// parts.
spec fn reflects(parts: ExprParts<'_>, expr: Expression) -> bool {
    match parts {
        ExprParts::Identifier(_) => expr is Identifier,
        ExprParts::CompoundIdentifier(names) => expr matches Expression::CompoundIdentifier(chain)
            && chain@.len() == names@.len(),
        ExprParts::Wildcard => expr is Wildcard,
        ExprParts::Other => expr is Other,
    }
}

/// An expression as the extraction reads it, from the parts of the parsed
/// one: a name, a dotted name with each of its parts, a wildcard, or any
/// other expression.
fn expr_of(parts: ExprParts<'_>) -> (r: Expression)
    ensures
        reflects(parts, r),
{
    match parts {
        ExprParts::Identifier(ident) => Expression::Identifier(ident_of(ident)),
        ExprParts::CompoundIdentifier(names) => Expression::CompoundIdentifier(idents_of(names)),
        ExprParts::Wildcard => Expression::Wildcard,
        ExprParts::Other => Expression::Other,
    }
}

/// A projection item as the extraction reads it, from the parts of the
/// parsed one: of the same variant, with its expression and its alias.
fn select_item_of(parts: SelectItemParts<'_>) -> (r: ProjectionItem)
    ensures
        match parts {
            SelectItemParts::UnnamedExpr(_) => r is UnnamedExpr,
            SelectItemParts::ExprWithAlias(_, _) => r is ExprWithAlias,
            SelectItemParts::QualifiedWildcard => r is QualifiedWildcard,
            SelectItemParts::Wildcard => r is Wildcard,
        },
{
    match parts {
        SelectItemParts::UnnamedExpr(expr) => ProjectionItem::UnnamedExpr(
            expr_of(expr_parts(expr)),
        ),
        SelectItemParts::ExprWithAlias(expr, alias) => ProjectionItem::ExprWithAlias {
            expr: expr_of(expr_parts(expr)),
            alias: ident_of(alias),
        },
        SelectItemParts::QualifiedWildcard => ProjectionItem::QualifiedWildcard,
        SelectItemParts::Wildcard => ProjectionItem::Wildcard,
    }
}

/// The body of a query as the extraction reads it, from the projection of
/// the parsed one: a plain `SELECT` with as many items, one for each in
/// their order; any other body where there is no projection.
fn set_expr_of(items: Option<&Vec<sqlparser::ast::SelectItem>>) -> (r: QueryBody)
    ensures
        match items {
            Some(items) => r matches QueryBody::Select { projection } && projection@.len()
                == items@.len(),
            None => r is Other,
        },
{
    match items {
        Some(items) => {
            let mut projection: Vec<ProjectionItem> = Vec::new();
            let mut i: usize = 0;
            while i < items.len()
                invariant
                    i <= items.len(),
                    projection.len() == i,
                decreases items.len() - i,
            {
                projection.push(select_item_of(select_item_parts(&items[i])));
                i = i + 1;
            }
            QueryBody::Select { projection }
        },
        None => QueryBody::Other,
    }
}

/// An assignment of `UPDATE` as the extraction reads it, from the parts of
/// the parsed one: a target of the same variant, a column name with as many
/// parts, and a value of the variant of `value`.
fn assignment_of(target: AssignmentTargetParts<'_>, value: ExprParts<'_>) -> (r: ColumnAssignment)
    ensures
        match target {
            AssignmentTargetParts::ColumnName(names) => {
                r.target matches AssignmentTarget::ColumnName(chain) && chain@.len()
                    == names@.len()
            },
            AssignmentTargetParts::Tuple => r.target is Tuple,
        },
        reflects(value, r.value),
{
    let target = match target {
        AssignmentTargetParts::ColumnName(names) => AssignmentTarget::ColumnName(idents_of(names)),
        AssignmentTargetParts::Tuple => AssignmentTarget::Tuple,
    };
    ColumnAssignment { target, value: expr_of(value) }
}

/// The assignments of an `UPDATE`, one by one.
fn assignments_of(assignments: &Vec<sqlparser::ast::Assignment>) -> (converted: Vec<
    ColumnAssignment,
>)
    ensures
        converted.len() == assignments.len(),
{
    let mut converted: Vec<ColumnAssignment> = Vec::new();
    let mut i: usize = 0;
    while i < assignments.len()
        invariant
            i <= assignments.len(),
            converted.len() == i,
        decreases assignments.len() - i,
    {
        let target = assignment_target_parts(&assignments[i]);
        let value = expr_parts(assignment_value(&assignments[i]));
        converted.push(assignment_of(target, value));
        i = i + 1;
    }
    converted
}

/// The tables of a `DELETE` as the extraction reads them, from the tables
/// that the parsed one lists after `FROM`: as many references, one for each
/// table in their order, without the tables joined to it; none where the
/// statement has no `FROM`.
fn from_table_of(tables: Option<&Vec<sqlparser::ast::TableWithJoins>>) -> (r: FromClause)
    ensures
        match tables {
            Some(tables) => r matches FromClause::WithFromKeyword(references)
                && references@.len() == tables@.len(),
            None => r is WithoutKeyword,
        },
{
    match tables {
        Some(tables) => {
            let mut references: Vec<TableReference> = Vec::new();
            let mut i: usize = 0;
            while i < tables.len()
                invariant
                    i <= tables.len(),
                    references.len() == i,
                decreases tables.len() - i,
            {
                let relation = table_relation(&tables[i]);
                references.push(table_factor_of(table_factor_parts(relation)));
                i = i + 1;
            }
            FromClause::WithFromKeyword(references)
        },
        None => FromClause::WithoutKeyword,
    }
}

/// A statement as the extraction reads it, from the parts of the parsed one:
/// of the same kind, an `INSERT` with as many columns and an `UPDATE` with
/// as many assignments.
fn statement_of(parts: StatementParts<'_>) -> (r: StatementNode)
    ensures
        match parts {
            StatementParts::Query(_) => r is Query,
            StatementParts::Insert(_, names) => r matches StatementNode::Insert { columns, .. }
                && columns@.len() == names@.len(),
            StatementParts::Update(_, parsed) => r matches StatementNode::Update {
                assignments,
                ..
            } && assignments@.len() == parsed@.len(),
            StatementParts::Delete(_) => r is Delete,
            StatementParts::Other => r is Other,
        },
{
    match parts {
        StatementParts::Query(body) => StatementNode::Query {
            body: set_expr_of(select_projection(body)),
        },
        StatementParts::Insert(table_name, columns) => StatementNode::Insert {
            table_name: object_name_text(table_name),
            columns: idents_of(columns),
        },
        StatementParts::Update(table, assignments) => StatementNode::Update {
            table: table_factor_of(table_factor_parts(table_relation(table))),
            assignments: assignments_of(assignments),
        },
        StatementParts::Delete(from) => StatementNode::Delete {
            from: from_table_of(tables_after_from(from)),
        },
        StatementParts::Other => StatementNode::Other,
    }
}

/// A table reference as the extraction reads it, from the parts of the
/// parsed one: a named table with its name as it is printed, and with the
/// name of its alias where the parsed one has one; else any other.
fn table_factor_of(parts: TableFactorParts<'_>) -> (r: TableReference)
    ensures
        match parts {
            TableFactorParts::Table(_, parsed) => r matches TableReference::Table { alias, .. }
                && (alias is Some <==> parsed is Some),
            TableFactorParts::Other => r is Other,
        },
{
    match parts {
        TableFactorParts::Table(name, alias) => TableReference::Table {
            name: object_name_text(name),
            alias: match alias {
                Some(alias) => Some(ident_of(table_alias_name(alias))),
                None => None,
            },
        },
        TableFactorParts::Other => TableReference::Other,
    }
}

/// A visitor that writes down each node that the extraction reads, in the
/// order in which the walk meets it.
struct Recorder {
    nodes: Vec<Node>,
}

/// What a recorder has written down so far.
impl View for Recorder {
    type V = Seq<NodeView>;

    closed spec fn view(&self) -> Seq<NodeView> {
        views(self.nodes@)
    }
}

impl sqlparser::ast::Visitor for Recorder {
    type Break = ();

    /// Writes down a statement after what was written before, and lets the
    /// walk go on.
    fn pre_visit_statement(&mut self, statement: &sqlparser::ast::Statement) -> (flow: ControlFlow<
        (),
    >)
        ensures
            flow is Continue,
            final(self)@.len() == old(self)@.len() + 1,
            final(self)@.drop_last() == old(self)@,
            final(self)@.last() is Statement,
    {
        self.nodes.push(Node::Statement(statement_of(statement_parts(statement))));
        ControlFlow::Continue(())
    }

    /// Writes down a table in `FROM` or `JOIN` position after what was
    /// written before, and lets the walk go on.
    fn pre_visit_table_factor(&mut self, table_factor: &sqlparser::ast::TableFactor) -> (flow:
        ControlFlow<()>)
        ensures
            flow is Continue,
            final(self)@.len() == old(self)@.len() + 1,
            final(self)@.drop_last() == old(self)@,
            final(self)@.last() is TableFactor,
    {
        self.nodes.push(Node::TableFactor(table_factor_of(table_factor_parts(table_factor))));
        ControlFlow::Continue(())
    }

    /// Writes down a reference to an object, by its name parts, after what
    /// was written before, and lets the walk go on.
    fn pre_visit_relation(&mut self, relation: &sqlparser::ast::ObjectName) -> (flow: ControlFlow<
        (),
    >)
        ensures
            flow is Continue,
            final(self)@.len() == old(self)@.len() + 1,
            final(self)@.drop_last() == old(self)@,
            final(self)@.last() is Relation,
    {
        self.nodes.push(Node::Relation(idents_of(object_name_parts(relation))));
        ControlFlow::Continue(())
    }

    /// Writes down an expression after what was written before, and lets
    /// the walk go on.
    fn pre_visit_expr(&mut self, expr: &sqlparser::ast::Expr) -> (flow: ControlFlow<()>)
        ensures
            flow is Continue,
            final(self)@.len() == old(self)@.len() + 1,
            final(self)@.drop_last() == old(self)@,
            final(self)@.last() is Expr,
    {
        self.nodes.push(Node::Expr(expr_of(expr_parts(expr))));
        ControlFlow::Continue(())
    }
}

/// The kinds of the tokens that a parser has yet to read, in their order,
/// blanks and comments left out: of each token its shape and what word it
/// is, as `next_shape`, `peek_word` and `peek_lead` tell them.
pub uninterp spec fn pending(parser: sqlparser::parser::Parser<'static>) -> Seq<TokenKind>;

/// The kinds of the tokens of the text `sql`, in their order, blanks and
/// comments left out; `None` where the text cannot be cut into tokens.
pub uninterp spec fn sql_tokens(sql: Seq<char>) -> Option<Seq<TokenKind>>;

/// Cuts `sql` into tokens with `sqlparser::parser::Parser::new` for the
/// generic dialect and `Parser::try_with_sql`, which is how
/// `Parser::parse_sql` begins. The contract claims that the outcome depends
/// on the text alone: the tokenizer's error, or a parser that has all tokens
/// of the text yet to read.
#[verifier::external_body]
fn scan(sql: &str) -> (r: Result<
    sqlparser::parser::Parser<'static>,
    sqlparser::parser::ParserError,
>)
    ensures
        match r {
            Ok(parser) => sql_tokens(sql@) == Some(pending(parser)),
            Err(_) => sql_tokens(sql@) is None,
        },
{
    sqlparser::parser::Parser::new(&sqlparser::dialect::GenericDialect {}).try_with_sql(sql)
}

/// Looks at the next token with `sqlparser::parser::Parser::peek_token`,
/// which passes over blanks and comments, and tells what word it is among
/// the words of `GRANT`, `REVOKE` and `FLUSH`, by its field `keyword`, as
/// the parser does when it looks for a keyword. A token that is no word, and
/// the end of the text, count as any other word.
#[verifier::external_body]
fn peek_word(parser: &sqlparser::parser::Parser<'static>) -> (word: WordKind)
    ensures
        word == kind_at(pending(*parser), 0).word,
{
    match parser.peek_token().token {
        Token::Word(word) => match word.keyword {
            Keyword::GRANT | Keyword::REVOKE => WordKind::Grant,
            Keyword::GRANTED => WordKind::Granted,
            Keyword::BY => WordKind::By,
            Keyword::FLUSH => WordKind::Flush,
            Keyword::RELAY => WordKind::Relay,
            Keyword::LOGS => WordKind::Logs,
            Keyword::FOR => WordKind::For,
            Keyword::CHANNEL => WordKind::Channel,
            _ => WordKind::Other,
        },
        _ => WordKind::Other,
    }
}

/// Looks at the next token with `sqlparser::parser::Parser::peek_token` and
/// tells what word it is among the words that lead up to a statement inside
/// another, by its field `keyword`. A token that is no word, and the end of
/// the text, count as any other word.
#[verifier::external_body]
fn peek_lead(parser: &sqlparser::parser::Parser<'static>) -> (lead: Lead)
    ensures
        lead == kind_at(pending(*parser), 0).lead,
{
    match parser.peek_token().token {
        Token::Word(word) => match word.keyword {
            Keyword::EXPLAIN | Keyword::DESCRIBE | Keyword::DESC => Lead::Explain,
            Keyword::ANALYZE | Keyword::VERBOSE => Lead::Detail,
            Keyword::FORMAT => Lead::Format,
            Keyword::PREPARE => Lead::Prepare,
            Keyword::CREATE => Lead::Create,
            Keyword::AS => Lead::As,
            Keyword::BEGIN => Lead::Begin,
            _ => Lead::Other,
        },
        _ => Lead::Other,
    }
}

/// Reads the next token with `sqlparser::parser::Parser::next_token`, which
/// passes over blanks and comments and gives the end of the text once no
/// token is left, and tells its shape. The tokenizer puts no token for the
/// end of the text among the tokens.
#[verifier::external_body]
fn next_shape(parser: &mut sqlparser::parser::Parser<'static>) -> (shape: Shape)
    ensures
        shape == kind_at(pending(*old(parser)), 0).shape,
        shape is End <==> pending(*old(parser)).len() == 0,
        pending(*final(parser)) == if pending(*old(parser)).len() > 0 {
            pending(*old(parser)).drop_first()
        } else {
            pending(*old(parser))
        },
{
    match parser.next_token().token {
        Token::Word(_) => Shape::Word,
        Token::SingleQuotedString(_) | Token::DoubleQuotedString(_) => Shape::Quoted,
        Token::Period => Shape::Period,
        Token::Comma => Shape::Comma,
        Token::LParen => Shape::LParen,
        Token::RParen => Shape::RParen,
        Token::SemiColon => Shape::SemiColon,
        Token::EOF => Shape::End,
        _ => Shape::Other,
    }
}

/// The kinds of the tokens that `parser` has yet to read.
fn token_kinds(parser: sqlparser::parser::Parser<'static>) -> (kinds: Vec<TokenKind>)
    ensures
        kinds@ == pending(parser),
{
    let ghost all = pending(parser);
    let mut reader = parser;
    let mut kinds: Vec<TokenKind> = Vec::new();
    loop
        invariant
            kinds@ + pending(reader) == all,
        ensures
            kinds@ == all,
        decreases pending(reader).len(),
    {
        let ghost rest = pending(reader);
        let word = peek_word(&reader);
        let lead = peek_lead(&reader);
        let shape = next_shape(&mut reader);
        match shape {
            Shape::End => {
                assert(kinds@ + rest =~= kinds@);
                break ;
            },
            _ => {
                kinds.push(TokenKind { shape, word, lead });
                assert(kinds@ + rest.drop_first() =~= all);
            },
        }
    }
    kinds
}

/// Whether the text `sql` may go to the parser: it can be cut into tokens,
/// and where `GRANTED BY` stands in what may be a `GRANT` or a `REVOKE`, or
/// `FOR CHANNEL` after a `FLUSH RELAY LOGS` that may be a statement, the
/// identifier or name that the parser takes for granted there follows.
pub open spec fn admitted(sql: Seq<char>) -> bool {
    match sql_tokens(sql) {
        Some(kinds) => guarded(kinds),
        None => false,
    }
}

/// The nodes of the statements that the text `sql` holds, in the order in
/// which a pre-order walk of their syntax trees meets them; `None` where the
/// parser refuses the text. It is what `sqlparser` makes of an admitted
/// text, and nothing is known of it but that it depends on the text alone.
pub uninterp spec fn syntax_nodes(sql: Seq<char>) -> Option<Seq<NodeView>>;

/// Parses `sql` with `sqlparser::parser::Parser::parse_sql` in the generic
/// dialect and walks the statements with `sqlparser::ast::Visit::visit`. The
/// walk calls the recorder before it descends into a node, so the nodes come
/// in pre-order. The contract claims that the outcome depends on the text
/// alone: an error for a text that the parser refuses, else the nodes.
///
/// The parser unwraps what `parse_identifier` gives after `GRANTED BY` (in
/// `parse_grant` and `parse_revoke`) and what `parse_object_name` gives after
/// `FOR CHANNEL` (in `parse_flush`), and so panics where no identifier or
/// dotted name stands there. `requires` leaves those texts out. The three
/// functions are entered from `parse_statement` alone, which is called at
/// the beginning of the text, after a semicolon, by `parse_explain` after
/// `EXPLAIN`, `DESCRIBE` or `DESC` with `ANALYZE`, `VERBOSE` and `FORMAT`
/// and a format, by `parse_prepare` after `AS`, and by
/// `parse_create_procedure` after `AS BEGIN`. Up to `GRANTED BY` a
/// `GRANT` or a `REVOKE` reads only keywords, identifiers, dots, commas and
/// brackets. Up to `FOR CHANNEL` a `FLUSH` reads at most one keyword and
/// `RELAY LOGS`.
#[verifier::external_body]
fn parse(sql: &str) -> (r: Result<Vec<Node>, sqlparser::parser::ParserError>)
    requires
        admitted(sql@),
    ensures
        match r {
            Ok(nodes) => syntax_nodes(sql@) == Some(views(nodes@)),
            Err(_) => syntax_nodes(sql@) is None,
        },
{
    let statements = sqlparser::parser::Parser::parse_sql(
        &sqlparser::dialect::GenericDialect {},
        sql,
    )?;
    let mut recorder = Recorder { nodes: Vec::new() };
    let _ = statements.visit(&mut recorder);
    Ok(recorder.nodes)
}

/// The nodes of the text `sql`: those of an admitted text that the parser
/// accepts, `None` for every other text.
pub open spec fn readable(sql: Seq<char>) -> Option<Seq<NodeView>> {
    if admitted(sql) {
        syntax_nodes(sql)
    } else {
        None
    }
}

/// The failure for a text that is kept from the parser.
fn missing_identifier() -> ParseFailure {
    ParseFailure::Parser(
        String::from_str("Expected: identifier after GRANTED BY or FOR CHANNEL"),
    )
}

/// The nodes of the statements in `sql`. A text that cannot be cut into
/// tokens, that is not admitted or that the parser refuses gives a failure.
pub fn read(sql: &str) -> (r: Result<Vec<Node>, ParseFailure>)
    ensures
        match r {
            Ok(nodes) => readable(sql@) == Some(views(nodes@)),
            Err(_) => readable(sql@) is None,
        },
{
    match scan(sql) {
        Ok(parser) => {
            let kinds = token_kinds(parser);
            if is_guarded(&kinds) {
                match parse(sql) {
                    Ok(nodes) => Ok(nodes),
                    Err(error) => Err(parse_failure(error)),
                }
            } else {
                Err(missing_identifier())
            }
        },
        Err(error) => Err(parse_failure(error)),
    }
}

} // verus!
