use sql_inspector::alias_map::AliasMap;
use sql_inspector::resolver::{resolve, resolve_aliases};
use sql_inspector::string_set::StringSet;

fn set_of(items: &[&str]) -> StringSet {
    let mut set = StringSet::new();
    for item in items {
        set.insert(item.to_string());
    }
    set
}

#[test]
fn set_is_kept_in_order() {
    let set = set_of(&["pear", "apple", "fig", "apple", "banana", "pear"]);
    assert_eq!(set.as_vec(), &vec!["apple", "banana", "fig", "pear"]);
    assert_eq!(set.into_vec(), vec!["apple", "banana", "fig", "pear"]);
}

#[test]
fn empty_set() {
    assert!(StringSet::new().into_vec().is_empty());
}

#[test]
fn set_orders_by_code_point() {
    let set = set_of(&["b", "B", "a", "", "*", "ab", "é", "z"]);
    assert_eq!(set.into_vec(), vec!["", "*", "B", "a", "ab", "b", "z", "é"]);
}

#[test]
fn insertion_order_does_not_matter() {
    let one = set_of(&["c", "a", "b"]).into_vec();
    let other = set_of(&["b", "c", "a", "c"]).into_vec();
    assert_eq!(one, other);
    let mut sorted = vec!["c".to_string(), "a".to_string(), "b".to_string()];
    sorted.sort();
    assert_eq!(one, sorted);
}

#[test]
fn alias_lookup() {
    let mut aliases = AliasMap::new();
    assert_eq!(aliases.get("u"), None);
    aliases.insert("u".to_string(), "users".to_string());
    aliases.insert("o".to_string(), "orders".to_string());
    assert_eq!(aliases.get("u"), Some(&"users".to_string()));
    assert_eq!(aliases.get("o"), Some(&"orders".to_string()));
    assert_eq!(aliases.get("x"), None);
    assert_eq!(aliases.get("users"), None);
}

#[test]
fn later_alias_replaces_earlier() {
    let mut aliases = AliasMap::new();
    aliases.insert("t".to_string(), "first".to_string());
    aliases.insert("s".to_string(), "other".to_string());
    aliases.insert("t".to_string(), "second".to_string());
    assert_eq!(aliases.get("t"), Some(&"second".to_string()));
    assert_eq!(aliases.get("s"), Some(&"other".to_string()));
}

#[test]
fn column_resolution() {
    let mut aliases = AliasMap::new();
    aliases.insert("u".to_string(), "users".to_string());
    aliases.insert("s".to_string(), "app.sessions".to_string());
    assert_eq!(resolve(&aliases, "u.id"), "users.id");
    assert_eq!(resolve(&aliases, "u.a.b"), "users.b");
    assert_eq!(resolve(&aliases, "s.token"), "app.sessions.token");
    assert_eq!(resolve(&aliases, "users.id"), "users.id");
    assert_eq!(resolve(&aliases, "x.id"), "x.id");
    assert_eq!(resolve(&aliases, "u"), "u");
    assert_eq!(resolve(&aliases, "id"), "id");
    assert_eq!(resolve(&aliases, "*"), "*");
    assert_eq!(resolve(&aliases, "u."), "users.");
    assert_eq!(resolve(&aliases, ".id"), ".id");
    assert_eq!(resolve(&AliasMap::new(), "u.id"), "u.id");
}

#[test]
fn resolution_of_a_set() {
    let mut aliases = AliasMap::new();
    aliases.insert("u".to_string(), "users".to_string());
    let columns = set_of(&["u.id", "users.id", "u.x.id", "name", "o.id", "*", "u.name"]);
    let resolved = resolve_aliases(&columns, &aliases);
    assert_eq!(resolved.into_vec(), vec!["*", "name", "o.id", "users.id", "users.name"]);
}
