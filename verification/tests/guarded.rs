use sql_inspector::guard::{
    begins_dotted_name, is_guarded, step, FlushStage, Lead, Mode, Scan, Shape, TokenKind, WordKind,
};
use sql_inspector::sql::read;
use sql_inspector::{inspect, ParseFailure, QueryType};

const KEPT: &str = "Expected: identifier after GRANTED BY or FOR CHANNEL";

const fn word(word: WordKind) -> TokenKind {
    TokenKind { shape: Shape::Word, word, lead: Lead::Other }
}

const fn lead(lead: Lead) -> TokenKind {
    TokenKind { shape: Shape::Word, word: WordKind::Other, lead }
}

const fn shape(shape: Shape) -> TokenKind {
    TokenKind { shape, word: WordKind::Other, lead: Lead::Other }
}

const GRANT: TokenKind = word(WordKind::Grant);
const GRANTED: TokenKind = word(WordKind::Granted);
const BY: TokenKind = word(WordKind::By);
const FLUSH: TokenKind = word(WordKind::Flush);
const RELAY: TokenKind = word(WordKind::Relay);
const LOGS: TokenKind = word(WordKind::Logs);
const FOR: TokenKind = word(WordKind::For);
const CHANNEL: TokenKind = word(WordKind::Channel);
const WORD: TokenKind = word(WordKind::Other);
const EXPLAIN: TokenKind = lead(Lead::Explain);
const VERBOSE: TokenKind = lead(Lead::Detail);
const FORMAT: TokenKind = lead(Lead::Format);
const PREPARE: TokenKind = lead(Lead::Prepare);
const CREATE: TokenKind = lead(Lead::Create);
const AS: TokenKind = lead(Lead::As);
const BEGIN: TokenKind = lead(Lead::Begin);
const QUOTED: TokenKind = shape(Shape::Quoted);
const PERIOD: TokenKind = shape(Shape::Period);
const COMMA: TokenKind = shape(Shape::Comma);
const LPAREN: TokenKind = shape(Shape::LParen);
const RPAREN: TokenKind = shape(Shape::RParen);
const SEMICOLON: TokenKind = shape(Shape::SemiColon);
const NUMBER: TokenKind = shape(Shape::Other);

fn refused(sql: &str) {
    assert_eq!(inspect(sql).unwrap_err(), ParseFailure::Parser(KEPT.to_string()), "{}", sql);
    assert!(read(sql).is_err());
}

fn left_to_the_parser(sql: &str) {
    if let Err(failure) = inspect(sql) {
        assert_ne!(failure, ParseFailure::Parser(KEPT.to_string()), "{}", sql);
    }
}

fn opens_after(kinds: &[TokenKind]) -> bool {
    let mut scan = Scan {
        opening: true,
        mode: Mode::Idle,
        granting: false,
        flushing: FlushStage::Idle,
    };
    for kind in kinds {
        scan = step(scan, *kind);
    }
    scan.opening
}

#[test]
fn grant_without_grantor_is_refused() {
    refused("GRANT SELECT ON t TO u GRANTED BY 1");
    refused("GRANT SELECT ON t TO u GRANTED BY");
    refused("GRANT SELECT ON t TO u GRANTED /* who */ BY ;");
    refused("grant select (a, b) on s.t to u, v with grant option granted by (x)");
    refused("SELECT 1; GRANT ALL ON t TO u GRANTED BY 1");
    refused(";; GRANT ALL ON t TO \"u\" GRANTED BY 1");
}

#[test]
fn revoke_without_grantor_is_refused() {
    refused("REVOKE SELECT ON t FROM u GRANTED BY 1");
    refused("REVOKE SELECT ON t FROM u GRANTED BY , CASCADE");
}

#[test]
fn flush_without_channel_is_refused() {
    refused("FLUSH RELAY LOGS FOR CHANNEL 1");
    refused("FLUSH RELAY LOGS FOR CHANNEL");
    refused("FLUSH RELAY LOGS FOR CHANNEL a.");
    refused("FLUSH LOCAL RELAY LOGS FOR CHANNEL 1");
    refused("FLUSH NO_WRITE_TO_BINLOG RELAY LOGS FOR CHANNEL ;");
    refused("SELECT 1; FLUSH RELAY LOGS FOR CHANNEL -- none\n ;");
    assert!(inspect("FLUSH RELAY LOGS FOR CHANNEL a.1").is_err());
}

#[test]
fn statement_inside_another_is_refused() {
    refused("EXPLAIN GRANT SELECT ON t TO u GRANTED BY 1");
    refused("DESCRIBE ANALYZE VERBOSE GRANT SELECT ON t TO u GRANTED BY 1");
    refused("EXPLAIN FORMAT TEXT REVOKE SELECT ON t FROM u GRANTED BY 1");
    refused("EXPLAIN EXPLAIN GRANT SELECT ON t TO u GRANTED BY 1");
    refused("PREPARE p AS GRANT SELECT ON t TO u GRANTED BY 1");
    refused("PREPARE p (INT, TEXT) AS GRANT SELECT ON t TO u GRANTED BY 1");
    refused("PREPARE as AS GRANT SELECT ON t TO u GRANTED BY 1");
    refused("PREPARE p AS EXPLAIN FLUSH RELAY LOGS FOR CHANNEL 1");
    refused("CREATE PROCEDURE p AS BEGIN FLUSH RELAY LOGS FOR CHANNEL 1; END");
    refused(
        "CREATE OR ALTER PROCEDURE p AS BEGIN SELECT 1; REVOKE ALL ON t FROM u GRANTED BY; END",
    );
    refused("EXPLAIN FLUSH RELAY LOGS FOR CHANNEL 1");
}

#[test]
fn statements_with_what_the_parser_expects_are_read() {
    for sql in [
        "GRANT SELECT ON t TO u GRANTED BY admin",
        "GRANT SELECT ON t TO u GRANTED BY \"the admin\"",
        "GRANT SELECT ON t TO u GRANTED BY 'admin'",
        "REVOKE SELECT ON t FROM u GRANTED BY admin CASCADE",
        "FLUSH RELAY LOGS FOR CHANNEL c1",
        "FLUSH RELAY LOGS FOR CHANNEL a.b.c",
        "FLUSH RELAY LOGS FOR CHANNEL granted",
    ] {
        let res = inspect(sql).unwrap();
        assert_eq!(res.query_type, QueryType::SELECT, "{}", sql);
        assert_eq!(res.target_table, "", "{}", sql);
    }
}

#[test]
fn the_words_as_names_are_read() {
    let res = inspect("SELECT 1 FROM granted by").unwrap();
    assert_eq!(res.tables, vec!["granted"]);
    assert!(res.columns.is_empty());
    let res = inspect("SELECT granted by, x FROM t").unwrap();
    assert_eq!(res.tables, vec!["t"]);
    assert_eq!(res.columns, vec!["granted", "x"]);
    let res = inspect("SELECT by.x FROM granted by, t WHERE by.x = 1").unwrap();
    assert_eq!(res.tables, vec!["granted", "t"]);
    assert_eq!(res.columns, vec!["granted.x"]);
    let res = inspect("SELECT x FROM t; SELECT 1 FROM granted by").unwrap();
    assert_eq!(res.tables, vec!["granted", "t"]);
    let res = inspect("SELECT a AS grant, granted by, b FROM t").unwrap();
    assert_eq!(res.columns, vec!["a", "b", "granted"]);
}

#[test]
fn the_words_outside_their_statements_are_left_to_the_parser() {
    left_to_the_parser("CREATE TABLE t (for channel)");
    left_to_the_parser("SELECT grant, granted by, x FROM t");
    left_to_the_parser("SELECT begin grant, granted by, x FROM t");
    left_to_the_parser("SELECT verbose grant, granted by, x FROM t");
    left_to_the_parser("SELECT explain, grant, granted by, 1");
    left_to_the_parser("SELECT 1 AS flush, relay logs, for channel, 1");
    left_to_the_parser("SELECT relay logs, for channel, 1");
    left_to_the_parser("SELECT flush, relay, logs FOR channel");
    left_to_the_parser("UPDATE t SET a = 1 WHERE granted BY 1");
    left_to_the_parser("SELECT 1 FROM t FOR channel");
    left_to_the_parser("FLUSH TABLES t FOR channel ;");
    left_to_the_parser("GRANT SELECT ON t TO u; SELECT 1 FROM granted by");
    left_to_the_parser("GRANT SELECT ON t TO u WHERE x = 1 GRANTED BY 2");
    left_to_the_parser("CREATE VIEW v AS SELECT grant, granted by, x FROM t");
    left_to_the_parser("PREPARE p AS SELECT a AS grant, granted by, b FROM t");
}

#[test]
fn keywords_in_strings_and_comments_do_not_matter() {
    let res = inspect("SELECT granted, channel FROM t WHERE note = 'GRANTED BY 1'").unwrap();
    assert_eq!(res.columns, vec!["channel", "granted", "note"]);
    let res = inspect("SELECT a FROM t -- FOR CHANNEL 1\n WHERE b = 1").unwrap();
    assert_eq!(res.columns, vec!["a", "b"]);
    let res = inspect("SELECT \"granted\" FROM t ORDER BY 1").unwrap();
    assert_eq!(res.columns, vec!["granted"]);
}

#[test]
fn guard_of_grant_on_token_kinds() {
    assert!(is_guarded(&vec![]));
    assert!(is_guarded(&vec![WORD, NUMBER, WORD]));
    assert!(!is_guarded(&vec![GRANT, WORD, GRANTED, BY]));
    assert!(!is_guarded(&vec![GRANT, WORD, COMMA, QUOTED, PERIOD, WORD, GRANTED, BY, NUMBER]));
    assert!(!is_guarded(&vec![GRANT, WORD, LPAREN, WORD, RPAREN, GRANTED, BY, RPAREN]));
    assert!(!is_guarded(&vec![GRANT, GRANTED, BY, COMMA]));
    assert!(!is_guarded(&vec![WORD, SEMICOLON, GRANT, WORD, GRANTED, BY, SEMICOLON]));
    assert!(!is_guarded(&vec![EXPLAIN, GRANT, WORD, GRANTED, BY, NUMBER]));
    assert!(!is_guarded(&vec![EXPLAIN, VERBOSE, FORMAT, WORD, GRANT, WORD, GRANTED, BY, NUMBER]));
    assert!(!is_guarded(&vec![PREPARE, WORD, AS, GRANT, WORD, GRANTED, BY]));
    assert!(!is_guarded(&vec![PREPARE, AS, AS, GRANT, WORD, GRANTED, BY]));
    assert!(!is_guarded(&vec![
        PREPARE, WORD, LPAREN, WORD, LPAREN, NUMBER, RPAREN, COMMA, WORD, RPAREN, AS, GRANT, WORD,
        GRANTED, BY,
    ]));
    assert!(is_guarded(&vec![PREPARE, WORD, AS, WORD, WORD, AS, GRANT, COMMA, GRANTED, BY]));
    assert!(is_guarded(&vec![PREPARE, WORD, WORD, AS, GRANT, COMMA, GRANTED, BY]));
    assert!(!is_guarded(&vec![CREATE, WORD, WORD, AS, BEGIN, GRANT, WORD, GRANTED, BY]));
    assert!(is_guarded(&vec![GRANT, WORD, GRANTED, BY, WORD]));
    assert!(is_guarded(&vec![GRANT, WORD, GRANTED, BY, QUOTED]));
    assert!(is_guarded(&vec![GRANT, WORD, GRANTED, BY, BY]));
    assert!(is_guarded(&vec![GRANT, WORD, GRANTED, WORD, BY, NUMBER]));
    assert!(is_guarded(&vec![GRANT, WORD, GRANTED]));
    // the words stand in no GRANT
    assert!(is_guarded(&vec![GRANTED, BY]));
    assert!(is_guarded(&vec![WORD, GRANTED, BY, COMMA, WORD]));
    assert!(is_guarded(&vec![WORD, GRANT, COMMA, GRANTED, BY, COMMA]));
    assert!(is_guarded(&vec![COMMA, GRANT, WORD, GRANTED, BY, NUMBER]));
    assert!(is_guarded(&vec![WORD, AS, GRANT, COMMA, GRANTED, BY, COMMA]));
    assert!(is_guarded(&vec![WORD, BEGIN, GRANT, COMMA, GRANTED, BY, COMMA]));
    assert!(is_guarded(&vec![WORD, VERBOSE, GRANT, COMMA, GRANTED, BY, COMMA]));
    assert!(is_guarded(&vec![WORD, EXPLAIN, GRANT, COMMA, GRANTED, BY, COMMA]));
    assert!(is_guarded(&vec![CREATE, WORD, AS, WORD, BEGIN, GRANT, GRANTED, BY]));
    // something that is no part of a GRANT stands between
    assert!(is_guarded(&vec![GRANT, WORD, NUMBER, GRANTED, BY, NUMBER]));
    assert!(is_guarded(&vec![GRANT, WORD, SEMICOLON, WORD, GRANTED, BY]));
    assert!(!is_guarded(&vec![GRANT, NUMBER, SEMICOLON, GRANT, GRANTED, BY]));
}

#[test]
fn guard_of_flush_on_token_kinds() {
    assert!(!is_guarded(&vec![FLUSH, RELAY, LOGS, FOR, CHANNEL]));
    assert!(!is_guarded(&vec![FLUSH, RELAY, LOGS, FOR, CHANNEL, NUMBER]));
    assert!(!is_guarded(&vec![FLUSH, WORD, RELAY, LOGS, FOR, CHANNEL, NUMBER]));
    assert!(!is_guarded(&vec![FLUSH, RELAY, LOGS, FOR, CHANNEL, WORD, PERIOD]));
    assert!(!is_guarded(&vec![FLUSH, RELAY, LOGS, FOR, CHANNEL, WORD, PERIOD, NUMBER]));
    assert!(!is_guarded(&vec![WORD, SEMICOLON, FLUSH, RELAY, LOGS, FOR, CHANNEL, SEMICOLON]));
    assert!(!is_guarded(&vec![EXPLAIN, FLUSH, RELAY, LOGS, FOR, CHANNEL]));
    assert!(is_guarded(&vec![FLUSH, RELAY, LOGS, FOR, CHANNEL, WORD]));
    assert!(is_guarded(&vec![FLUSH, RELAY, LOGS, FOR, CHANNEL, WORD, PERIOD, QUOTED]));
    assert!(is_guarded(&vec![FLUSH, RELAY, LOGS, FOR, CHANNEL, WORD, NUMBER]));
    assert!(is_guarded(&vec![FLUSH, RELAY, LOGS, FOR, WORD, CHANNEL]));
    // the words stand in no FLUSH RELAY LOGS
    assert!(is_guarded(&vec![FOR, CHANNEL]));
    assert!(is_guarded(&vec![RELAY, LOGS, FOR, CHANNEL, NUMBER]));
    assert!(is_guarded(&vec![WORD, FLUSH, RELAY, LOGS, FOR, CHANNEL, NUMBER]));
    assert!(is_guarded(&vec![WORD, AS, FLUSH, RELAY, LOGS, FOR, CHANNEL, NUMBER]));
    assert!(is_guarded(&vec![FLUSH, WORD, WORD, RELAY, LOGS, FOR, CHANNEL]));
    assert!(is_guarded(&vec![FLUSH, COMMA, RELAY, LOGS, FOR, CHANNEL]));
    assert!(is_guarded(&vec![FLUSH, RELAY, LOGS, WORD, FOR, CHANNEL]));
}

#[test]
fn where_a_statement_may_begin() {
    assert!(opens_after(&[]));
    assert!(!opens_after(&[WORD]));
    assert!(opens_after(&[WORD, SEMICOLON]));
    assert!(opens_after(&[WORD, SEMICOLON, SEMICOLON]));
    assert!(opens_after(&[EXPLAIN]));
    assert!(opens_after(&[EXPLAIN, VERBOSE, VERBOSE]));
    assert!(!opens_after(&[EXPLAIN, FORMAT]));
    assert!(opens_after(&[EXPLAIN, FORMAT, WORD]));
    assert!(!opens_after(&[EXPLAIN, FORMAT, NUMBER]));
    assert!(!opens_after(&[EXPLAIN, WORD, VERBOSE]));
    assert!(!opens_after(&[WORD, EXPLAIN]));
    assert!(!opens_after(&[WORD, VERBOSE]));
    assert!(!opens_after(&[FORMAT, WORD]));
    assert!(opens_after(&[PREPARE, WORD, AS]));
    assert!(opens_after(&[PREPARE, WORD, LPAREN, WORD, RPAREN, AS]));
    assert!(opens_after(&[PREPARE, WORD, LPAREN, WORD, LPAREN, RPAREN, RPAREN, AS]));
    assert!(opens_after(&[PREPARE, AS, AS]));
    assert!(!opens_after(&[PREPARE, AS]));
    assert!(!opens_after(&[PREPARE, WORD]));
    assert!(!opens_after(&[PREPARE, WORD, WORD, AS]));
    assert!(!opens_after(&[PREPARE, WORD, AS, WORD, AS]));
    assert!(!opens_after(&[PREPARE, WORD, LPAREN, WORD, AS]));
    assert!(!opens_after(&[PREPARE, WORD, LPAREN, RPAREN, WORD, AS]));
    assert!(!opens_after(&[WORD, AS]));
    assert!(!opens_after(&[WORD, PREPARE, WORD, AS]));
    assert!(opens_after(&[CREATE, WORD, WORD, AS, BEGIN]));
    assert!(!opens_after(&[CREATE, WORD, WORD, BEGIN]));
    assert!(!opens_after(&[CREATE, WORD, AS, WORD, BEGIN]));
    assert!(!opens_after(&[WORD, AS, BEGIN]));
    assert!(!opens_after(&[BEGIN]));
    assert!(opens_after(&[EXPLAIN, CREATE, WORD, AS, BEGIN, EXPLAIN]));
}

#[test]
fn dotted_names() {
    let kinds = vec![WORD, PERIOD, QUOTED, NUMBER, PERIOD];
    assert!(begins_dotted_name(&kinds, 0));
    assert!(begins_dotted_name(&kinds, 2));
    assert!(!begins_dotted_name(&kinds, 1));
    assert!(!begins_dotted_name(&kinds, 3));
    assert!(!begins_dotted_name(&kinds, 4));
    assert!(!begins_dotted_name(&kinds, 5));
    assert!(!begins_dotted_name(&kinds, 99));
    assert!(!begins_dotted_name(&vec![WORD, PERIOD], 0));
}
