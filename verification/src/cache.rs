//! The pure half of HTTP-resource caching: which resources are cacheable,
//! and where in the cache a resource lives. Fetching and file I/O stay with
//! the caller.

use crate::strutil;
use vstd::prelude::*;
use vstd::string::StringExecFns;

verus! {

/// Only HTTP and HTTPS resources are cacheable.
pub open spec fn is_cacheable_spec(resource: Seq<char>) -> bool {
    "http://"@.is_prefix_of(resource) || "https://"@.is_prefix_of(resource)
}

/// Tests `is_cacheable_spec`.
pub fn is_cacheable(resource: &str) -> (r: bool)
    ensures
        r == is_cacheable_spec(resource@),
{
    strutil::str_starts_with(resource, "http://") || strutil::str_starts_with(
        resource,
        "https://",
    )
}

/// A resource that is not cacheable, carried in the error verbatim.
#[derive(Debug, Clone, PartialEq, Eq)]
pub struct CacheError {
    pub resource: String,
}

impl CacheError {
    /// A human-readable account of the error.
    pub fn message(&self) -> (r: String)
        ensures
            r@ == "Can't process "@ + self.resource@
                + ". Only HTTP and HTTPS resources are cacheable"@,
    {
        let mut out = strutil::concat_str("Can't process ", self.resource.as_str());
        out.append(". Only HTTP and HTTPS resources are cacheable");
        out
    }
}

/// Where a cacheable resource is cached: the resource with every slash,
/// colon and dot flattened to underscores, filed under the cache directory
/// of the home directory (every `~` of the joined path expands to `home`).
pub open spec fn cache_file_spec(resource: Seq<char>, home: Seq<char>) -> Seq<char> {
    let sanitized = strutil::replace_all_spec(
        strutil::replace_all_spec(
            strutil::replace_all_spec(resource, seq!['/'], seq!['_']),
            seq![':'],
            seq!['_'],
        ),
        seq!['.'],
        seq!['_'],
    );
    strutil::replace_all_spec("~/.cache/"@ + sanitized, seq!['~'], home)
}

/// Computes the cache file path for `resource`, or reports that the
/// resource is not cacheable.
pub fn cache_file_for(resource: &str, home: &str) -> (r: Result<String, CacheError>)
    ensures
        is_cacheable_spec(resource@) ==> (r matches Ok(p) && p@ == cache_file_spec(
            resource@,
            home@,
        )),
        !is_cacheable_spec(resource@) ==> (r matches Err(e) && e.resource@ == resource@),
{
    if !is_cacheable(resource) {
        return Err(CacheError { resource: resource.to_owned() });
    }
    proof {
        reveal_strlit("/");
        reveal_strlit(":");
        reveal_strlit(".");
        reveal_strlit("_");
        reveal_strlit("~");
        assert("/"@ =~= seq!['/']);
        assert(":"@ =~= seq![':']);
        assert("."@ =~= seq!['.']);
        assert("_"@ =~= seq!['_']);
        assert("~"@ =~= seq!['~']);
    }
    let s1 = strutil::replace_all(resource, "/", "_");
    let s2 = strutil::replace_all(s1.as_str(), ":", "_");
    let s3 = strutil::replace_all(s2.as_str(), ".", "_");
    let joined = strutil::concat_str("~/.cache/", s3.as_str());
    Ok(strutil::replace_all(joined.as_str(), "~", home))
}

} // verus!
