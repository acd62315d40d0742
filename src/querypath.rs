//! Querypaths: a portal-relative address, script path and query string as
//! one unit (`ilias.php?ref_id=5&cmd=view`).

use vstd::prelude::*;
use crate::text::{find_char, is_first_index_of, contains_char, lemma_first_index_exists, lemma_first_index_unique};

verus! {

/// The path part of a querypath: everything before the first `?`.
pub open spec fn path_of(q: Seq<char>) -> Seq<char> {
    if contains_char(q, '?') {
        q.subrange(0, choose|i: int| is_first_index_of(q, '?', i))
    } else {
        q
    }
}

/// The query part of a querypath: everything after the first `?`, if there is one.
pub open spec fn query_of(q: Seq<char>) -> Option<Seq<char>> {
    if contains_char(q, '?') {
        Some(q.subrange((choose|i: int| is_first_index_of(q, '?', i)) + 1, q.len() as int))
    } else {
        None
    }
}

/// `path` without one leading `/`.
pub open spec fn relative_path(path: Seq<char>) -> Seq<char> {
    if path.len() > 0 && path[0] == '/' {
        path.subrange(1, path.len() as int)
    } else {
        path
    }
}

/// The querypath that a URL with this path and query stands for.
pub open spec fn joined(path: Seq<char>, query: Option<Seq<char>>) -> Seq<char> {
    match query {
        Some(q) => relative_path(path) + seq!['?'] + q,
        None => relative_path(path),
    }
}

/// Splits a querypath into its path and its query at the first `?`.
pub fn split_querypath(q: &str) -> (r: (String, Option<String>))
    ensures
        r.0@ == path_of(q@),
        match r.1 {
            Some(s) => query_of(q@) == Some(s@),
            None => query_of(q@) is None,
        },
{
    match find_char(q, '?') {
        Some(i) => {
            proof {
                assert(contains_char(q@, '?'));
                let k = choose|k: int| is_first_index_of(q@, '?', k);
                lemma_first_index_unique(q@, '?', i as int, k);
            }
            let n = q.unicode_len();
            let path = q.substring_char(0, i).to_owned();
            let query = q.substring_char(i + 1, n).to_owned();
            (path, Some(query))
        },
        None => (q.to_owned(), None),
    }
}

/// The querypath of a URL with the given path and query: the path without
/// its leading `/`, then `?` and the query where there is one.
pub fn join_querypath(path: &str, query: Option<&str>) -> (r: String)
    ensures
        r@ == joined(path@, match query { Some(s) => Some(s@), None => None }),
{
    let n = path.unicode_len();
    let mut out = if n > 0 && path.get_char(0) == '/' {
        path.substring_char(1, n).to_owned()
    } else {
        path.to_owned()
    };
    match query {
        Some(s) => {
            out.append("?");
            out.append(s);
            proof {
                reveal_strlit("?");
            }
            out
        },
        None => out,
    }
}

/// The querypath that leads to the object of a kind (`fold`, `exc`) and an id.
pub open spec fn goto_querypath(kind: Seq<char>, id: Seq<char>) -> Seq<char> {
    "goto.php?target="@ + kind + "_"@ + id + "&client_id=produktiv"@
}

/// The querypath that leads to the object of a kind and an id.
pub fn goto_querypath_of(kind: &str, id: &str) -> (r: String)
    ensures
        r@ == goto_querypath(kind@, id@),
{
    let mut r = "goto.php?target=".to_owned();
    r.append(kind);
    r.append("_");
    r.append(id);
    r.append("&client_id=produktiv");
    r
}

/// Reading back a querypath that was set onto a URL gives the same string:
/// the URL keeps the path with a leading `/` added and the query as it was.
pub proof fn lemma_querypath_round_trip(q: Seq<char>)
    requires
        !(q.len() > 0 && q[0] == '/'),
    ensures
        joined(path_of(q), query_of(q)) == q,
        joined(seq!['/'] + path_of(q), query_of(q)) == q,
{
    if contains_char(q, '?') {
        lemma_first_index_exists(q, '?');
        let i = choose|i: int| is_first_index_of(q, '?', i);
        assert(q.subrange(0, i) + seq!['?'] + q.subrange(i + 1, q.len() as int) =~= q);
        assert((seq!['/'] + q.subrange(0, i)).subrange(1, i + 1) =~= q.subrange(0, i));
        if i > 0 {
            assert(q.subrange(0, i)[0] == q[0]);
        }
    } else {
        assert((seq!['/'] + q).subrange(1, q.len() as int + 1) =~= q);
    }
}

} // verus!
