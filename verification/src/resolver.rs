//! Aliases in qualified column names give way to the tables they stand for.

use crate::alias_map::AliasMap;
use crate::string_set::{texts, StringSet};
use crate::text::{
    after_last_dot, before_first_dot, has_dot, lemma_after_last_dot_has_no_dot,
    lemma_qualified_dots, qualified, qualify, split_qualified,
};
use vstd::prelude::*;

verus! {

/// A column name after resolution. A name with a dot whose part before the
/// first dot is an alias becomes the alias's table qualifying the part after
/// the last dot. Every other name stays as it is.
pub open spec fn resolve_column(aliases: Map<Seq<char>, Seq<char>>, column: Seq<char>) -> Seq<
    char,
> {
    if has_dot(column) && aliases.contains_key(before_first_dot(column)) {
        qualified(aliases[before_first_dot(column)], after_last_dot(column))
    } else {
        column
    }
}

/// Resolution under `aliases`, as a function of the column name.
pub open spec fn resolution(aliases: Map<Seq<char>, Seq<char>>) -> spec_fn(Seq<char>) -> Seq<
    char,
> {
    |column: Seq<char>| resolve_column(aliases, column)
}

/// The columns of a statement after resolution.
pub open spec fn resolve_columns(
    aliases: Map<Seq<char>, Seq<char>>,
    columns: Set<Seq<char>>,
) -> Set<Seq<char>> {
    columns.map(resolution(aliases))
}

/// A column of the set is found, resolved, among the resolved columns.
pub proof fn lemma_resolved_member(
    aliases: Map<Seq<char>, Seq<char>>,
    columns: Set<Seq<char>>,
    column: Seq<char>,
)
    requires
        columns.contains(column),
    ensures
        resolve_columns(aliases, columns).contains(resolve_column(aliases, column)),
{
}

/// No alias stands for a name that begins with an alias of another table.
pub open spec fn aliases_end_in_tables(aliases: Map<Seq<char>, Seq<char>>) -> bool {
    forall|alias: Seq<char>| #[trigger]
        aliases.contains_key(alias) && aliases.contains_key(before_first_dot(aliases[alias]))
            ==> aliases[before_first_dot(aliases[alias])] == aliases[alias]
}

/// Where `aliases_end_in_tables` holds, a resolved column that begins with an
/// alias is the alias's table qualifying the column's last part.
pub proof fn lemma_resolved_prefix(
    aliases: Map<Seq<char>, Seq<char>>,
    columns: Set<Seq<char>>,
    column: Seq<char>,
)
    requires
        aliases_end_in_tables(aliases),
        resolve_columns(aliases, columns).contains(column),
        has_dot(column),
        aliases.contains_key(before_first_dot(column)),
    ensures
        column == qualified(aliases[before_first_dot(column)], after_last_dot(column)),
{
    let origin = choose|origin: Seq<char>|
        columns.contains(origin) && column == resolution(aliases)(origin);
    let alias = before_first_dot(origin);
    lemma_after_last_dot_has_no_dot(origin);
    lemma_qualified_dots(aliases[alias], after_last_dot(origin));
}

/// Resolves one column name.
pub fn resolve(aliases: &AliasMap, column: &str) -> (r: String)
    ensures
        r@ == resolve_column(aliases@, column@),
{
    match split_qualified(column) {
        Some((owner, name)) => match aliases.get(owner.as_str()) {
            Some(table) => qualify(table.as_str(), name.as_str()),
            None => column.to_owned(),
        },
        None => column.to_owned(),
    }
}

/// Resolves every column of a set. Columns that resolve to one name are one
/// column afterwards.
pub fn resolve_aliases(columns: &StringSet, aliases: &AliasMap) -> (r: StringSet)
    requires
        columns.wf(),
    ensures
        r.wf(),
        r@ == resolve_columns(aliases@, columns@),
{
    let items = columns.as_vec();
    let mut resolved = StringSet::new();
    let mut i: usize = 0;
    let ghost all = texts(items@);
    while i < items.len()
        invariant
            i <= items.len(),
            all == texts(items@),
            resolved.wf(),
            resolved@ =~= all.take(i as int).to_set().map(resolution(aliases@)),
        decreases items.len() - i,
    {
        proof {
            assert(all.take(i + 1) =~= all.take(i as int).push(all[i as int]));
            all.take(i as int).lemma_push_to_set_commute(all[i as int]);
            all.take(i as int).to_set().lemma_set_map_insert_commute(
                all[i as int],
                resolution(aliases@),
            );
        }
        resolved.insert(resolve(aliases, items[i].as_str()));
        i = i + 1;
    }
    assert(all.take(i as int) =~= all);
    resolved
}

} // verus!
