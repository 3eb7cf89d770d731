use surrealdb::types::{RecordId, RecordIdKey, ToSql};
use vstd::prelude::*;

verus! {

/// Table and key that surrealdb's `RecordId::parse_simple` reads from `text`, when it
/// reads a record id from it; the key always comes back as a string key.
pub uninterp spec fn record_parts(text: Seq<char>) -> Option<(Seq<char>, Seq<char>)>;

/// Text that surrealdb's `ToSql::to_sql` writes for the record id with a string key.
pub uninterp spec fn record_text(table: Seq<char>, key: Seq<char>) -> Seq<char>;

/// Relies on surrealdb's `RecordId::parse_simple`: splits a `table:key` reference and
/// undoes the backtick escapes that `to_sql` writes. It always yields a string key.
#[verifier::external_body]
pub(crate) fn parse_record(text: &str) -> (r: Option<(String, String)>)
    ensures
        match r {
            Some(parts) => record_parts(text@) == Some((parts.0@, parts.1@)),
            None => record_parts(text@) is None,
        },
{
    match RecordId::parse_simple(text) {
        Ok(id) => match id.key {
            RecordIdKey::String(key) => Some((id.table.into_string(), key)),
            _ => None,
        },
        Err(_) => None,
    }
}

/// Relies on surrealdb's `RecordId::new` and `ToSql::to_sql`: the `table:key` text of a
/// string-keyed record id. As `RecordId::parse_simple` documents, that text is read back
/// to the same table and string key.
#[verifier::external_body]
pub(crate) fn render_record(table: &str, key: &str) -> (r: String)
    ensures
        r@ == record_text(table@, key@),
        record_parts(r@) == Some((table@, key@)),
{
    RecordId::new(table, key).to_sql()
}

} // verus!
