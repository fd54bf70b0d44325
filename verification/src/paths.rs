//! Where an entry lives in a store.
//!
//! An entry for `(pack, name, key)` sits at the relative path
//! `<pack>/<name>-<key>.svg` under the store's root; the local cache and
//! the offline store use the same layout under different roots.

use vstd::prelude::*;

use crate::digest::{cache_key_of, hash_digest};
use crate::errors::ResolutionError;
use crate::request::Request;
use crate::urlbuild::url_of;

verus! {

use vstd::string::StrSliceExecFns;
use vstd::string::StringExecFns;

/// The path of an entry relative to its store root.
pub open spec fn entry_rel_path(pack: Seq<char>, name: Seq<char>, key: Seq<char>) -> Seq<char> {
    pack + "/"@ + name + "-"@ + key + ".svg"@
}

/// The absolute path of an entry under a store root.
pub open spec fn entry_path(
    root: Seq<char>,
    pack: Seq<char>,
    name: Seq<char>,
    key: Seq<char>,
) -> Seq<char> {
    root + "/"@ + entry_rel_path(pack, name, key)
}

/// Joins a store entry's relative path from its parts.
pub fn entry_rel_path_exec(pack: &str, name: &str, key: &str) -> (r: String)
    ensures
        r@ == entry_rel_path(pack@, name@, key@),
{
    let mut r = pack.to_owned();
    r.append("/");
    r.append(name);
    r.append("-");
    r.append(key);
    r.append(".svg");
    r
}

/// Joins a store entry's absolute path under a root.
pub fn entry_path_exec(root: &str, pack: &str, name: &str, key: &str) -> (r: String)
    ensures
        r@ == entry_path(root@, pack@, name@, key@),
{
    let mut r = root.to_owned();
    r.append("/");
    let rel = entry_rel_path_exec(pack, name, key);
    r.append(rel.as_str());
    r
}

/// The place of a request's entry in the local cache under `cache_root`:
/// the pack, then `<name>-<key>.svg` with the key derived from the
/// canonical URL against `base`.
pub fn iconify_cache_path(cache_root: &str, base: &str, req: &Request) -> (r: Result<
    String,
    ResolutionError,
>)
    ensures
        r is Ok <==> (req@.pack.len() > 0 && req@.name.len() > 0),
        r matches Ok(p) ==> p@ == entry_path(
            cache_root@,
            req@.pack,
            req@.name,
            cache_key_of(url_of(base@, req@)),
        ),
        r matches Err(e) ==> e is UrlConstructionError,
{
    let url = match req.icon_url(base) {
        Ok(u) => u,
        Err(e) => {
            return Err(e);
        },
    };
    let key = hash_digest(url.as_str());
    Ok(entry_path_exec(cache_root, req.pack.as_str(), req.name.as_str(), key.as_str()))
}

/// The place of a request's entry in the offline store under
/// `offline_root`; the layout is the one the cache uses.
pub fn offline_icon_path(offline_root: &str, base: &str, req: &Request) -> (r: Result<
    String,
    ResolutionError,
>)
    ensures
        r is Ok <==> (req@.pack.len() > 0 && req@.name.len() > 0),
        r matches Ok(p) ==> p@ == entry_path(
            offline_root@,
            req@.pack,
            req@.name,
            cache_key_of(url_of(base@, req@)),
        ),
        r matches Err(e) ==> e is UrlConstructionError,
{
    let url = match req.icon_url(base) {
        Ok(u) => u,
        Err(e) => {
            return Err(e);
        },
    };
    let key = hash_digest(url.as_str());
    Ok(entry_path_exec(offline_root, req.pack.as_str(), req.name.as_str(), key.as_str()))
}

} // verus!
