//! Request routing: which endpoint a request path names, which repository it
//! addresses, and the externally visible base URL of the service.
use vstd::prelude::*;
use crate::text::{
    contains, ends_with, occurs_at, find_str, is_first_occurrence, str_ends_with, trim_leading_slashes,
    trim_start_slashes,
};

verus! {

/// The endpoint that a request path selects.
#[derive(PartialEq, Eq, Structural, Debug, Clone, Copy)]
pub enum Route {
    Version,
    Test,
    PutTest,
    LocksVerify,
    ObjectsBatch,
    Upload,
    Download,
    NotFound,
}

/// Dispatch by suffix, in a fixed order of precedence.
pub open spec fn route_of(api: Seq<char>) -> Route {
    if ends_with(api, "/version"@) {
        Route::Version
    } else if ends_with(api, "/test"@) {
        Route::Test
    } else if ends_with(api, "/put_test"@) {
        Route::PutTest
    } else if ends_with(api, "/locks/verify"@) {
        Route::LocksVerify
    } else if ends_with(api, "/objects/batch"@) {
        Route::ObjectsBatch
    } else if ends_with(api, "/upload"@) {
        Route::Upload
    } else if ends_with(api, "/download"@) {
        Route::Download
    } else {
        Route::NotFound
    }
}

/// One of the markers that end a repository identifier starts at index `i` of `p`.
pub open spec fn marker_at(p: Seq<char>, i: int) -> bool {
    occurs_at(p, "/objects"@, i) || occurs_at(p, "/locks"@, i) || occurs_at(p, "/upload"@, i)
        || occurs_at(p, "/download"@, i)
}

/// `i` is the smallest index at which any marker starts.
pub open spec fn is_first_marker(p: Seq<char>, i: int) -> bool {
    marker_at(p, i) && forall|j: int| marker_at(p, j) ==> i <= j
}

/// The repository identifier embedded in a request path: leading slashes are
/// dropped, and the identifier is what precedes the earliest occurrence of any
/// of the markers `/objects`, `/locks`, `/upload`, `/download`. Without any
/// marker it is empty.
pub open spec fn repo_dir_of(path: Seq<char>) -> Seq<char> {
    let p = trim_leading_slashes(path);
    if exists|i: int| marker_at(p, i) {
        p.subrange(0, choose|i: int| is_first_marker(p, i))
    } else {
        Seq::empty()
    }
}

pub open spec fn default_script_name() -> Seq<char> {
    "git-lfs-rust.cgi"@
}

/// The script part of a request URI: everything up to and including the first
/// `.cgi`, or a fixed script name when there is no URI or no `.cgi` in it.
pub open spec fn script_name_of(uri: Option<Seq<char>>) -> Seq<char> {
    match uri {
        Some(u) => if contains(u, ".cgi"@) {
            u.subrange(0, (choose|i: int| is_first_occurrence(u, ".cgi"@, i)) + 4)
        } else {
            default_script_name()
        },
        None => default_script_name(),
    }
}

pub open spec fn opt_view(o: Option<&str>) -> Option<Seq<char>> {
    match o {
        Some(s) => Some(s@),
        None => None,
    }
}

/// `scheme://host` followed by the script name; the scheme defaults to `http`,
/// the host to the forwarded host, else the host, else `localhost`.
pub open spec fn server_url_of(
    proto: Option<Seq<char>>,
    forwarded_host: Option<Seq<char>>,
    host: Option<Seq<char>>,
    request_uri: Option<Seq<char>>,
) -> Seq<char> {
    let scheme = match proto {
        Some(p) => p,
        None => "http"@,
    };
    let h = match forwarded_host {
        Some(f) => f,
        None => match host {
            Some(x) => x,
            None => "localhost"@,
        },
    };
    scheme + "://"@ + h + script_name_of(request_uri)
}

pub open spec fn empty_locks_body() -> Seq<char> {
    "{\"ours\":[],\"theirs\":[],\"next_cursor\":\"\"}"@
}

proof fn lemma_first_occurrence_unique(p: Seq<char>, n: Seq<char>, i: int)
    requires
        is_first_occurrence(p, n, i),
    ensures
        (choose|j: int| is_first_occurrence(p, n, j)) == i,
{
    let j = choose|j: int| is_first_occurrence(p, n, j);
    assert(is_first_occurrence(p, n, j));
}

/// The endpoint that `api` (a request path without its query) selects.
pub fn route(api: &str) -> (r: Route)
    ensures
        r == route_of(api@),
{
    if str_ends_with(api, "/version") {
        Route::Version
    } else if str_ends_with(api, "/test") {
        Route::Test
    } else if str_ends_with(api, "/put_test") {
        Route::PutTest
    } else if str_ends_with(api, "/locks/verify") {
        Route::LocksVerify
    } else if str_ends_with(api, "/objects/batch") {
        Route::ObjectsBatch
    } else if str_ends_with(api, "/upload") {
        Route::Upload
    } else if str_ends_with(api, "/download") {
        Route::Download
    } else {
        Route::NotFound
    }
}

/// The smaller of two optional indices.
fn earlier(a: Option<usize>, b: Option<usize>) -> (r: Option<usize>)
    ensures
        r is None <==> a is None && b is None,
        r matches Some(m) ==> (a == Some(m) || b == Some(m)),
        a matches Some(x) ==> r matches Some(m) && m <= x,
        b matches Some(y) ==> r matches Some(m) && m <= y,
{
    match (a, b) {
        (Some(x), Some(y)) => if x <= y {
            Some(x)
        } else {
            Some(y)
        },
        (Some(x), None) => Some(x),
        (None, _) => b,
    }
}

/// The repository identifier embedded in a request path (see `repo_dir_of`).
pub fn extract_repo_dir(path: &str) -> (r: String)
    ensures
        r@ == repo_dir_of(path@),
{
    let p = trim_start_slashes(path);
    let f1 = find_str(p, "/objects");
    let f2 = find_str(p, "/locks");
    let f3 = find_str(p, "/upload");
    let f4 = find_str(p, "/download");
    let first = earlier(earlier(f1, f2), earlier(f3, f4));
    match first {
        Some(pos) => {
            proof {
                assert(is_first_marker(p@, pos as int));
                let c = choose|i: int| is_first_marker(p@, i);
                assert(is_first_marker(p@, c));
                assert(c == pos);
            }
            String::from_str(p.substring_char(0, pos))
        },
        None => {
            assert(!exists|i: int| marker_at(p@, i));
            String::new()
        },
    }
}

/// The script part of a request URI (see `script_name_of`).
pub fn extract_script_name(request_uri: Option<&str>) -> (r: String)
    ensures
        r@ == script_name_of(opt_view(request_uri)),
{
    if let Some(uri) = request_uri {
        if let Some(pos) = find_str(uri, ".cgi") {
            proof {
                lemma_first_occurrence_unique(uri@, ".cgi"@, pos as int);
                reveal_strlit(".cgi");
            }
            let len = uri.unicode_len();
            assert(pos + 4 <= len);
            return String::from_str(uri.substring_char(0, pos + 4));
        }
    }
    String::from_str("git-lfs-rust.cgi")
}

/// The externally visible base URL of the service (see `server_url_of`).
pub fn get_server_url(
    proto: Option<&str>,
    forwarded_host: Option<&str>,
    host: Option<&str>,
    request_uri: Option<&str>,
) -> (r: String)
    ensures
        r@ == server_url_of(
            opt_view(proto),
            opt_view(forwarded_host),
            opt_view(host),
            opt_view(request_uri),
        ),
{
    let mut r = match proto {
        Some(p) => String::from_str(p),
        None => String::from_str("http"),
    };
    r.append("://");
    match forwarded_host {
        Some(f) => r.append(f),
        None => match host {
            Some(h) => r.append(h),
            None => r.append("localhost"),
        },
    }
    let script = extract_script_name(request_uri);
    r.append(script.as_str());
    r
}

/// Whether the request log is running; the service is built without it.
pub fn is_logger_init() -> (r: bool)
    ensures
        !r,
{
    false
}

/// The lock-verification answer: always the empty lock set, whatever the
/// request body holds.
pub fn locks_verify(body: &[u8]) -> (r: String)
    ensures
        r@ == empty_locks_body(),
{
    String::from_str("{\"ours\":[],\"theirs\":[],\"next_cursor\":\"\"}")
}

} // verus!
