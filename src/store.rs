//! The object store's decisions: which file a transfer addresses, whether an
//! upload writes, and what an upload or download answers.
//!
//! The store itself is modelled as a map from file path to bytes. An upload
//! writes only where no file exists yet (first writer wins); a download reads
//! what is there.
use vstd::prelude::*;
use vstd::string::{StrSliceExecFns, StringSliceAdditionalSpecFns};
use crate::query::{form_pairs, last_value, query_param};
use crate::shard::{
    is_safe_oid, is_safe_repo, object_dir, object_dir_of, object_path, object_path_of, safe_oid,
    safe_repo,
};

verus! {

/// Where an object's bytes live: its directory and its file.
pub struct ObjectLocation {
    pub dir: String,
    pub path: String,
}

/// What an upload does to the file of its object.
#[derive(PartialEq, Eq, Structural, Debug, Clone, Copy)]
pub enum WriteAction {
    /// A file is already there: leave its bytes as they are.
    Keep,
    /// No file is there yet: create it and write the body.
    Create,
}

/// How the storage side of an upload went.
#[derive(PartialEq, Eq, Structural, Debug, Clone, Copy)]
pub enum StoreOutcome {
    Stored,
    AlreadyPresent,
    DirFailed,
    WriteFailed,
}

/// How the storage side of a download went.
pub enum ReadOutcome {
    Missing,
    Failed,
    Bytes(Vec<u8>),
}

/// A response: status code, header lines, and body bytes.
pub struct Response {
    pub status: u16,
    pub headers: Vec<(String, String)>,
    pub body: Vec<u8>,
}

pub open spec fn headers_view(h: Seq<(String, String)>) -> Seq<(Seq<char>, Seq<char>)> {
    h.map_values(|p: (String, String)| (p.0@, p.1@))
}

/// Whether a transfer for `oid` in repository `repo` is served at all: the
/// identifier must be present, non-empty, and safe as a file name, and the
/// repository safe as a directory prefix.
pub open spec fn transfer_allowed(repo: Seq<char>, oid: Option<Seq<char>>) -> bool {
    match oid {
        Some(o) => safe_oid(o) && safe_repo(repo),
        None => false,
    }
}

pub open spec fn write_action_of(present: bool) -> WriteAction {
    if present {
        WriteAction::Keep
    } else {
        WriteAction::Create
    }
}

/// The store after applying a write decision for `path`.
pub open spec fn apply_write(
    store: Map<Seq<char>, Seq<u8>>,
    path: Seq<char>,
    action: WriteAction,
    body: Seq<u8>,
) -> Map<Seq<char>, Seq<u8>> {
    match action {
        WriteAction::Keep => store,
        WriteAction::Create => store.insert(path, body),
    }
}

/// The store after an upload of `body` to `path` whose storage side succeeded.
pub open spec fn after_upload(store: Map<Seq<char>, Seq<u8>>, path: Seq<char>, body: Seq<u8>) -> Map<
    Seq<char>,
    Seq<u8>,
> {
    apply_write(store, path, write_action_of(store.contains_key(path)), body)
}

/// What reading `path` finds in the store.
pub open spec fn read_of(store: Map<Seq<char>, Seq<u8>>, path: Seq<char>) -> ReadOutcomeModel {
    if store.contains_key(path) {
        ReadOutcomeModel::Bytes(store[path])
    } else {
        ReadOutcomeModel::Missing
    }
}

/// The mathematical counterpart of `ReadOutcome`.
pub enum ReadOutcomeModel {
    Missing,
    Failed,
    Bytes(Seq<u8>),
}

pub open spec fn read_outcome_view(o: ReadOutcome) -> ReadOutcomeModel {
    match o {
        ReadOutcome::Missing => ReadOutcomeModel::Missing,
        ReadOutcome::Failed => ReadOutcomeModel::Failed,
        ReadOutcome::Bytes(b) => ReadOutcomeModel::Bytes(b@),
    }
}

pub open spec fn upload_status_of(outcome: StoreOutcome) -> u16 {
    match outcome {
        StoreOutcome::Stored => 200,
        StoreOutcome::AlreadyPresent => 200,
        StoreOutcome::DirFailed => 500,
        StoreOutcome::WriteFailed => 500,
    }
}

pub open spec fn download_status_of(outcome: ReadOutcomeModel) -> u16 {
    match outcome {
        ReadOutcomeModel::Missing => 404,
        ReadOutcomeModel::Failed => 500,
        ReadOutcomeModel::Bytes(_) => 200,
    }
}

pub open spec fn digit_char(d: nat) -> char {
    if d == 0 { '0' }
    else if d == 1 { '1' }
    else if d == 2 { '2' }
    else if d == 3 { '3' }
    else if d == 4 { '4' }
    else if d == 5 { '5' }
    else if d == 6 { '6' }
    else if d == 7 { '7' }
    else if d == 8 { '8' }
    else { '9' }
}

/// The decimal digits of `n`, most significant first.
pub open spec fn decimal_of(n: nat) -> Seq<char>
    decreases n,
{
    if n < 10 {
        seq![digit_char(n)]
    } else {
        decimal_of(n / 10) + seq![digit_char(n % 10)]
    }
}

/// The header lines of a successful download of `len` bytes.
pub open spec fn download_headers(len: nat) -> Seq<(Seq<char>, Seq<char>)> {
    seq![
        ("Content-Type"@, "application/octet-stream"@),
        ("Cache-Control"@, "must-revalidate"@),
        ("Expires"@, "0"@),
        ("Pragma"@, "public"@),
        ("Content-Length"@, decimal_of(len)),
    ]
}

/// Where a transfer for `oid` goes under `root`, or `None` when the request
/// is refused (no identifier, an empty or unsafe one, or an unsafe repository).
pub fn locate_object(root: &str, repo: &str, oid: Option<&str>) -> (r: Option<ObjectLocation>)
    ensures
        r is Some <==> transfer_allowed(repo@, crate::route::opt_view(oid)),
        r matches Some(loc) ==> loc.dir@ == object_dir_of(root@, repo@, oid.unwrap()@)
            && loc.path@ == object_path_of(root@, repo@, oid.unwrap()@),
{
    match oid {
        Some(o) => {
            if is_safe_oid(o) && is_safe_repo(repo) {
                Some(ObjectLocation { dir: object_dir(root, repo, o), path: object_path(root, repo, o) })
            } else {
                None
            }
        },
        None => None,
    }
}

/// Where an upload or download with query string `query` goes: the object
/// named by the last `oid` parameter, or `None` when the request is refused
/// without touching storage (no `oid`, an empty or unsafe one, or an unsafe
/// repository).
pub fn transfer_target(root: &str, repo: &str, query: &str) -> (r: Option<ObjectLocation>)
    ensures
        r is Some <==> transfer_allowed(repo@, last_value(form_pairs(query@), "oid"@)),
        r matches Some(loc) ==> loc.dir@ == object_dir_of(
            root@,
            repo@,
            last_value(form_pairs(query@), "oid"@).unwrap(),
        ) && loc.path@ == object_path_of(root@, repo@, last_value(form_pairs(query@), "oid"@).unwrap()),
{
    match query_param(query, "oid") {
        Some(o) => locate_object(root, repo, Some(o.as_str())),
        None => locate_object(root, repo, None),
    }
}

/// Whether an upload writes: only where no file is present yet.
pub fn write_action(present: bool) -> (r: WriteAction)
    ensures
        r == write_action_of(present),
{
    if present {
        WriteAction::Keep
    } else {
        WriteAction::Create
    }
}

/// The status code that answers an upload.
pub fn upload_status(outcome: StoreOutcome) -> (r: u16)
    ensures
        r == upload_status_of(outcome),
{
    match outcome {
        StoreOutcome::Stored => 200,
        StoreOutcome::AlreadyPresent => 200,
        StoreOutcome::DirFailed => 500,
        StoreOutcome::WriteFailed => 500,
    }
}

fn digit_str(d: usize) -> (r: &'static str)
    requires
        d < 10,
    ensures
        r@ == seq![digit_char(d as nat)],
{
    proof {
        reveal_strlit("0");
        reveal_strlit("1");
        reveal_strlit("2");
        reveal_strlit("3");
        reveal_strlit("4");
        reveal_strlit("5");
        reveal_strlit("6");
        reveal_strlit("7");
        reveal_strlit("8");
        reveal_strlit("9");
    }
    let r = if d == 0 { "0" }
    else if d == 1 { "1" }
    else if d == 2 { "2" }
    else if d == 3 { "3" }
    else if d == 4 { "4" }
    else if d == 5 { "5" }
    else if d == 6 { "6" }
    else if d == 7 { "7" }
    else if d == 8 { "8" }
    else { "9" };
    assert(r@ =~= seq![digit_char(d as nat)]);
    r
}

/// `n` written in decimal.
pub fn decimal(n: usize) -> (r: String)
    ensures
        r@ == decimal_of(n as nat),
    decreases n,
{
    let mut r = if n >= 10 {
        decimal(n / 10)
    } else {
        String::new()
    };
    r.append(digit_str(n % 10));
    proof {
        if n < 10 {
            assert(r@ =~= decimal_of(n as nat));
        }
    }
    r
}

fn header(name: &str, value: &str) -> (r: (String, String))
    ensures
        r.0@ == name@,
        r.1@ == value@,
{
    (String::from_str(name), String::from_str(value))
}

/// A response with `status` and nothing else.
pub fn empty_response(status: u16) -> (r: Response)
    ensures
        r.status == status,
        r.headers@.len() == 0,
        r.body@.len() == 0,
{
    Response { status, headers: Vec::new(), body: Vec::new() }
}

/// A JSON response: `status`, a JSON content type, and the bytes of `json`.
pub fn json_response(status: u16, json: &str) -> (r: Response)
    ensures
        r.status == status,
        headers_view(r.headers@) == seq![("Content-Type"@, "application/json"@)],
        r.body@ == json.spec_bytes(),
{
    let mut headers: Vec<(String, String)> = Vec::new();
    headers.push(header("Content-Type", "application/json"));
    assert(headers_view(headers@) =~= seq![("Content-Type"@, "application/json"@)]);
    Response { status, headers, body: json.as_bytes_vec() }
}

/// The answer to a download: 404 when the object is missing, 500 when reading
/// it failed, else 200 with the bytes, an octet-stream content type, headers
/// that defeat caching, and the body's length.
pub fn download_response(outcome: ReadOutcome) -> (r: Response)
    ensures
        r.status == download_status_of(read_outcome_view(outcome)),
        outcome matches ReadOutcome::Bytes(b) ==> r.body@ == b@
            && headers_view(r.headers@) == download_headers(b@.len()),
        !(outcome is Bytes) ==> r.headers@.len() == 0 && r.body@.len() == 0,
{
    match outcome {
        ReadOutcome::Missing => empty_response(404),
        ReadOutcome::Failed => empty_response(500),
        ReadOutcome::Bytes(b) => {
            let mut headers: Vec<(String, String)> = Vec::new();
            headers.push(header("Content-Type", "application/octet-stream"));
            headers.push(header("Cache-Control", "must-revalidate"));
            headers.push(header("Expires", "0"));
            headers.push(header("Pragma", "public"));
            headers.push((String::from_str("Content-Length"), decimal(b.len())));
            assert(headers_view(headers@) =~= download_headers(b@.len()));
            Response { status: 200, headers, body: b }
        },
    }
}

/// Uploading the same bytes twice to the same object leaves the store as the
/// first upload left it: the second upload finds the file and does not write,
/// and an upload whose storage side succeeds, writing or not, answers 200.
pub proof fn lemma_upload_idempotent(store: Map<Seq<char>, Seq<u8>>, path: Seq<char>, body: Seq<u8>)
    ensures
        after_upload(after_upload(store, path, body), path, body) == after_upload(store, path, body),
        write_action_of(after_upload(store, path, body).contains_key(path)) == WriteAction::Keep,
        upload_status_of(StoreOutcome::Stored) == 200,
        upload_status_of(StoreOutcome::AlreadyPresent) == 200,
{
}

/// Uploading `body` for an object, then downloading the same object, yields
/// exactly `body`, unless other bytes were stored for it before (the first
/// writer wins).
pub proof fn lemma_upload_download_round_trip(
    store: Map<Seq<char>, Seq<u8>>,
    root: Seq<char>,
    repo: Seq<char>,
    oid: Seq<char>,
    body: Seq<u8>,
)
    requires
        transfer_allowed(repo, Some(oid)),
        store.contains_key(object_path_of(root, repo, oid)) ==> store[object_path_of(root, repo, oid)] == body,
    ensures
        read_of(after_upload(store, object_path_of(root, repo, oid), body), object_path_of(root, repo, oid))
            == ReadOutcomeModel::Bytes(body),
        download_status_of(
            read_of(after_upload(store, object_path_of(root, repo, oid), body), object_path_of(root, repo, oid)),
        ) == 200,
{
}

/// A download of an object that is not stored answers 404, and a transfer
/// without an identifier, or with an empty one, is refused before any path is
/// formed.
pub proof fn lemma_not_found(store: Map<Seq<char>, Seq<u8>>, path: Seq<char>, repo: Seq<char>)
    ensures
        !store.contains_key(path) ==> download_status_of(read_of(store, path)) == 404,
        !transfer_allowed(repo, None),
        !transfer_allowed(repo, Some(Seq::<char>::empty())),
{
}

} // verus!
