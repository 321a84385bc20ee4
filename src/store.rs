//! Naming of cache entries: one file per key, `<key>.webp`.
use crate::key::cache_key;
use vstd::prelude::*;

verus! {

/// The file name under which the entry for `key` is stored.
pub open spec fn entry_name(key: Seq<char>) -> Seq<char> {
    key + ".webp"@
}

/// The file name of the thumbnail of `path`, last modified at
/// `modified_millis`, rendered within `max_dimension` pixels.
pub open spec fn cache_entry(path: Seq<char>, modified_millis: u128, max_dimension: u32) -> Seq<char> {
    entry_name(cache_key(path, modified_millis, max_dimension))
}

/// The file name under which the entry for `key` is stored.
pub fn entry_file_name(key: &str) -> (r: String)
    ensures
        r@ == entry_name(key@),
{
    String::from_str(key).concat(".webp")
}

/// The file name of the thumbnail of `path`, last modified at
/// `modified_millis`, rendered within `max_dimension` pixels.
pub fn cache_entry_name(path: &str, modified_millis: u128, max_dimension: u32) -> (r: String)
    ensures
        r@ == cache_entry(path@, modified_millis, max_dimension),
{
    let key = crate::key::derive(path, modified_millis, max_dimension);
    entry_file_name(key.as_str())
}

} // verus!
