use sql_inspector::collector::{join, join_values};
use sql_inspector::syntax::Identifier;
use sql_inspector::text::{qualify, split_qualified, string_equal, string_precedes};

#[test]
fn order_of_strings() {
    assert!(string_precedes("a", "b"));
    assert!(!string_precedes("b", "a"));
    assert!(!string_precedes("a", "a"));
    assert!(string_precedes("", "a"));
    assert!(!string_precedes("a", ""));
    assert!(!string_precedes("", ""));
    assert!(string_precedes("ab", "abc"));
    assert!(!string_precedes("abc", "ab"));
    assert!(string_precedes("abc", "abd"));
    assert!(string_precedes("Table1", "table1"));
    assert!(string_precedes("*", "age"));
    assert!(string_precedes("users.id", "users.name"));
    assert!(string_precedes("TYPE", "Testno"));
}

#[test]
fn order_of_strings_is_that_of_std() {
    let samples = [
        "", "*", "a", "A", "ab", "a.b", "a b", "z", "é", "e", "日本", "zz", "\u{10000}", "\u{ffff}",
        "users", "users.id", "Users", "_x", "0", "~",
    ];
    for a in samples {
        for b in samples {
            assert_eq!(string_precedes(a, b), a < b, "{:?} {:?}", a, b);
        }
    }
}

#[test]
fn equality_of_strings() {
    let samples = ["", "a", "A", "ab", "abc", "a.b", "é", "e", "日本", "日", "users", "users "];
    for a in samples {
        for b in samples {
            assert_eq!(string_equal(a, b), a == b, "{:?} {:?}", a, b);
        }
    }
}

#[test]
fn qualified_name() {
    assert_eq!(qualify("users", "id"), "users.id");
    assert_eq!(qualify("", "id"), ".id");
    assert_eq!(qualify("users", ""), "users.");
    assert_eq!(qualify("a.b", "c"), "a.b.c");
}

#[test]
fn name_taken_apart() {
    assert_eq!(split_qualified("users.id"), Some(("users".to_string(), "id".to_string())));
    assert_eq!(split_qualified("a.b.c"), Some(("a".to_string(), "c".to_string())));
    assert_eq!(split_qualified("id"), None);
    assert_eq!(split_qualified(""), None);
    assert_eq!(split_qualified("*"), None);
    assert_eq!(split_qualified("."), Some(("".to_string(), "".to_string())));
    assert_eq!(split_qualified(".a"), Some(("".to_string(), "a".to_string())));
    assert_eq!(split_qualified("a."), Some(("a".to_string(), "".to_string())));
    assert_eq!(split_qualified("a..b"), Some(("a".to_string(), "b".to_string())));
    assert_eq!(split_qualified("täble.cölumn"), Some(("täble".to_string(), "cölumn".to_string())));
}

#[test]
fn names_joined_by_dots() {
    let quoted = Identifier { value: "my col".to_string(), text: "\"my col\"".to_string() };
    assert_eq!(join(&vec![]), "");
    assert_eq!(join(&vec![Identifier::new("a")]), "a");
    assert_eq!(join(&vec![Identifier::new("a"), Identifier::new("b")]), "a.b");
    assert_eq!(
        join(&vec![Identifier::new("s"), Identifier::new("t"), quoted.clone()]),
        "s.t.\"my col\""
    );
    assert_eq!(join_values(&vec![]), "");
    assert_eq!(join_values(&vec![Identifier::new("a")]), "a");
    assert_eq!(
        join_values(&vec![Identifier::new("s"), Identifier::new("t"), quoted]),
        "s.t.my col"
    );
}

#[test]
fn name_without_quotes() {
    let name = Identifier::new("users");
    assert_eq!(name.value, "users");
    assert_eq!(name.text, "users");
}
