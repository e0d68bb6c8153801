//! The decisions of a catalog cache whose entries expire: when an entry is
//! stale, what a lookup does, and which key an invalidation removes. The
//! time is passed in, as the time elapsed since an entry was stored.
use vstd::prelude::*;

verus! {

/// Whether an entry stored `elapsed` nanoseconds ago has outlived the
/// time-to-live `ttl`; with no time-to-live, entries never expire.
pub open spec fn spec_is_expired(elapsed: u128, ttl: Option<u128>) -> bool {
    match ttl {
        Some(t) => elapsed > t,
        None => false,
    }
}

/// Whether an entry stored `elapsed` nanoseconds ago has outlived the
/// time-to-live `ttl` (strictly longer than it); with no time-to-live,
/// entries never expire.
pub fn is_expired(elapsed: u128, ttl: Option<u128>) -> (res: bool)
    ensures
        res == spec_is_expired(elapsed, ttl),
{
    match ttl {
        Some(t) => elapsed > t,
        None => false,
    }
}

/// What a lookup in the cache does.
#[derive(Debug, Clone, Copy, PartialEq, Eq, Structural)]
pub enum CacheLookup {
    /// Nothing is stored: ask the catalog, wait for it, and store the answer.
    Fetch,
    /// Answer with the stored value.
    Cached,
    /// Answer with the stored value, and refresh it from the catalog in the
    /// background.
    CachedAndRefresh,
}

/// What a lookup does: with nothing stored, fetch; with an entry stored
/// `elapsed` nanoseconds ago, answer from the cache, and refresh the entry
/// in the background where it has expired.
pub fn lookup(stored: bool, elapsed: u128, ttl: Option<u128>) -> (res: CacheLookup)
    ensures
        !stored ==> res == CacheLookup::Fetch,
        stored && !spec_is_expired(elapsed, ttl) ==> res == CacheLookup::Cached,
        stored && spec_is_expired(elapsed, ttl) ==> res == CacheLookup::CachedAndRefresh,
{
    if !stored {
        CacheLookup::Fetch
    } else if is_expired(elapsed, ttl) {
        CacheLookup::CachedAndRefresh
    } else {
        CacheLookup::Cached
    }
}

/// The schema a cache key names: the one given, else `public`.
pub open spec fn key_schema(schema: Option<&str>) -> Seq<char> {
    match schema {
        Some(s) => s@,
        None => "public"@,
    }
}

/// The key of a schema's entries (its tables, its functions): the schema's
/// name, `public` where none is given.
pub fn schema_key(schema: Option<&str>) -> (res: String)
    ensures
        res@ == key_schema(schema),
{
    match schema {
        Some(s) => s.to_owned(),
        None => "public".to_owned(),
    }
}

/// The key of a table's entries (its columns, its definition): the schema's
/// name, `public` where none is given, and the table's name.
pub fn table_key(table: &str, schema: Option<&str>) -> (res: (String, String))
    ensures
        res.0@ == key_schema(schema),
        res.1@ == table@,
{
    (schema_key(schema), table.to_owned())
}

} // verus!
