//! A table from badge to a small integer, kept in a `hashbrown::HashMap`.
//!
//! The hash map itself is not verified. Its contents are given a name,
//! [`table_contents`], and each method that the routing logic calls is
//! reached through one function whose contract is taken on trust from the
//! documentation of `hashbrown`.

use vstd::prelude::*;

verus! {

/// A hash map from badge to integer. Verus does not look inside: what it
/// holds is spoken of through [`table_contents`] alone.
#[verifier::external_body]
pub struct BadgeTable {
    inner: hashbrown::HashMap<usize, usize>,
}

/// The key-value pairs that a hash map holds.
pub uninterp spec fn table_contents(m: BadgeTable) -> Map<usize, usize>;

/// `hashbrown::HashMap::new`: the new map holds nothing.
#[verifier::external_body]
pub(crate) fn table_new() -> (table: BadgeTable)
    ensures
        table_contents(table) =~= Map::empty(),
{
    BadgeTable { inner: hashbrown::HashMap::new() }
}

/// `hashbrown::HashMap::insert`: afterwards the key maps to the new value and
/// every other key is as before; the value that the key had, if any, is
/// handed back.
#[verifier::external_body]
pub(crate) fn table_insert(m: &mut BadgeTable, key: usize, value: usize) -> (prev: Option<usize>)
    ensures
        table_contents(*final(m)) == table_contents(*old(m)).insert(key, value),
        prev == (if table_contents(*old(m)).contains_key(key) {
            Some(table_contents(*old(m))[key])
        } else {
            None
        }),
{
    m.inner.insert(key, value)
}

/// `hashbrown::HashMap::remove`: afterwards the key is absent and every other
/// key is as before; the value that the key had, if any, is handed back.
#[verifier::external_body]
pub(crate) fn table_remove(m: &mut BadgeTable, key: usize) -> (prev: Option<usize>)
    ensures
        table_contents(*final(m)) == table_contents(*old(m)).remove(key),
        prev == (if table_contents(*old(m)).contains_key(key) {
            Some(table_contents(*old(m))[key])
        } else {
            None
        }),
{
    m.inner.remove(&key)
}

/// `hashbrown::HashMap::get`: the value under the key, if the key is present.
#[verifier::external_body]
pub(crate) fn table_get(m: &BadgeTable, key: usize) -> (found: Option<usize>)
    ensures
        found == (if table_contents(*m).contains_key(key) {
            Some(table_contents(*m)[key])
        } else {
            None
        }),
{
    m.inner.get(&key).copied()
}

} // verus!
