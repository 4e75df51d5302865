//! The batch processor: for each requested object, whether a transfer is
//! needed and where the client performs it.
use vstd::prelude::*;
use crate::json::{
    json_array, json_as_array, json_as_object, json_as_str, json_bool, json_bool_of,
    json_elements_of, json_fields_of, json_keys, json_map_clone, json_map_get, json_map_insert,
    json_map_member, json_map_new, json_member, json_member_of, json_object, json_ok, json_parse,
    json_str_of, json_string, json_text, json_text_of, json_u64, json_u64_of,
};
use crate::shard::{object_path, object_path_of};
use crate::store::{after_upload, transfer_allowed};
use crate::text::{str_eq, trim_end_slashes, trim_leading_slashes, trim_start_slashes, trim_trailing_slashes};

verus! {

/// How long, in seconds, an action descriptor stays valid: one day.
pub const ACTION_EXPIRES_IN: u64 = 86400;

/// The direction of a transfer.
#[derive(PartialEq, Eq, Structural, Debug, Clone, Copy)]
pub enum TransferKind {
    Upload,
    Download,
}

/// Where and for how long a client may perform one transfer.
pub struct Action {
    pub kind: TransferKind,
    pub href: String,
    pub expires_in: u64,
}

/// The mathematical counterpart of `Action`.
pub struct ActionModel {
    pub kind: TransferKind,
    pub href: Seq<char>,
    pub expires_in: u64,
}

/// One requested object: its identifier, when it has a string `oid`, and all
/// of its members as sent.
pub struct RequestObject {
    pub oid: Option<String>,
    pub fields: serde_json::Map<String, serde_json::Value>,
}

/// A decoded batch request.
pub struct BatchRequest {
    pub operation: String,
    pub objects: Vec<RequestObject>,
}

pub open spec fn kind_name(kind: TransferKind) -> Seq<char> {
    match kind {
        TransferKind::Upload => "upload"@,
        TransferKind::Download => "download"@,
    }
}

/// Which transfer an object needs: an upload of an absent object, or a
/// download of a present one; any other operation needs none.
pub open spec fn action_kind_of(operation: Seq<char>, exists: bool) -> Option<TransferKind> {
    if operation == "upload"@ && !exists {
        Some(TransferKind::Upload)
    } else if operation == "download"@ && exists {
        Some(TransferKind::Download)
    } else {
        None
    }
}

/// `{server}/{repo}{upload|download}?oid={oid}`, with the server's trailing
/// slashes and the repository's leading slashes dropped; `repo` ends with a slash.
pub open spec fn href_of(server_url: Seq<char>, repo: Seq<char>, kind: TransferKind, oid: Seq<char>) -> Seq<
    char,
> {
    trim_trailing_slashes(server_url) + "/"@ + trim_leading_slashes(repo) + kind_name(kind) + "?oid="@
        + oid
}

/// The action attached to one object of a batch, if any. Objects without an
/// identifier, or whose identifier or repository is unsafe as a path, get none.
pub open spec fn object_action(
    operation: Seq<char>,
    server_url: Seq<char>,
    repo: Seq<char>,
    oid: Option<Seq<char>>,
    exists: bool,
) -> Option<ActionModel> {
    if !transfer_allowed(repo, oid) {
        None
    } else {
        match action_kind_of(operation, exists) {
            Some(k) => Some(
                ActionModel {
                    kind: k,
                    href: href_of(server_url, repo, k, oid.unwrap()),
                    expires_in: ACTION_EXPIRES_IN,
                },
            ),
            None => None,
        }
    }
}

pub open spec fn action_view(a: Option<Action>) -> Option<ActionModel> {
    match a {
        Some(x) => Some(ActionModel { kind: x.kind, href: x.href@, expires_in: x.expires_in }),
        None => None,
    }
}

pub open spec fn oid_view(o: RequestObject) -> Option<Seq<char>> {
    match o.oid {
        Some(s) => Some(s@),
        None => None,
    }
}

/// The transfer that `operation` asks for an object, given whether it exists.
pub fn action_kind(operation: &str, exists: bool) -> (r: Option<TransferKind>)
    ensures
        r == action_kind_of(operation@, exists),
{
    if str_eq(operation, "upload") && !exists {
        Some(TransferKind::Upload)
    } else if str_eq(operation, "download") && exists {
        Some(TransferKind::Download)
    } else {
        None
    }
}

/// The URL at which a client performs a transfer (see `href_of`).
pub fn action_href(server_url: &str, repo: &str, kind: TransferKind, oid: &str) -> (r: String)
    ensures
        r@ == href_of(server_url@, repo@, kind, oid@),
{
    let mut r = String::from_str(trim_end_slashes(server_url));
    r.append("/");
    r.append(trim_start_slashes(repo));
    match kind {
        TransferKind::Upload => r.append("upload"),
        TransferKind::Download => r.append("download"),
    }
    r.append("?oid=");
    r.append(oid);
    r
}

/// The file whose existence decides each object's action, or `None` where no
/// action can be attached (no identifier, or an unsafe one).
pub fn object_paths(root: &str, repo: &str, req: &BatchRequest) -> (r: Vec<Option<String>>)
    ensures
        r@.len() == req.objects@.len(),
        forall|i: int|
            0 <= i < r@.len() ==> (r@[i] is Some <==> transfer_allowed(repo@, oid_view(#[trigger] req.objects@[i]))),
        forall|i: int|
            0 <= i < r@.len() && r@[i] is Some ==> r@[i].unwrap()@
                == crate::shard::object_path_of(root@, repo@, oid_view(req.objects@[i]).unwrap()),
{
    let safe_repo = crate::shard::is_safe_repo(repo);
    let mut r: Vec<Option<String>> = Vec::new();
    let mut i: usize = 0;
    while i < req.objects.len()
        invariant
            i <= req.objects@.len(),
            r@.len() == i,
            safe_repo == crate::shard::safe_repo(repo@),
            forall|j: int|
                0 <= j < i ==> (r@[j] is Some <==> transfer_allowed(repo@, oid_view(#[trigger] req.objects@[j]))),
            forall|j: int|
                0 <= j < i && r@[j] is Some ==> r@[j].unwrap()@
                    == crate::shard::object_path_of(root@, repo@, oid_view(req.objects@[j]).unwrap()),
        decreases req.objects@.len() - i,
    {
        let p = match &req.objects[i].oid {
            Some(o) => if safe_repo && crate::shard::is_safe_oid(o.as_str()) {
                Some(object_path(root, repo, o.as_str()))
            } else {
                None
            },
            None => None,
        };
        r.push(p);
        i = i + 1;
    }
    r
}

/// The action attached to requested object `o` (see `object_action`).
fn action_for(
    operation: &str,
    server_url: &str,
    repo: &str,
    repo_is_safe: bool,
    o: &RequestObject,
    exists: bool,
) -> (r: Option<Action>)
    requires
        repo_is_safe == crate::shard::safe_repo(repo@),
    ensures
        action_view(r) == object_action(operation@, server_url@, repo@, oid_view(*o), exists),
{
    match &o.oid {
        Some(oid) => if repo_is_safe && crate::shard::is_safe_oid(oid.as_str()) {
            match action_kind(operation, exists) {
                Some(k) => Some(
                    Action {
                        kind: k,
                        href: action_href(server_url, repo, k, oid.as_str()),
                        expires_in: ACTION_EXPIRES_IN,
                    },
                ),
                None => None,
            }
        } else {
            None
        },
        None => None,
    }
}

/// The action for each requested object, in request order: an upload for an
/// absent object when uploading, a download for a present one when
/// downloading, none otherwise. `exists[i]` tells whether object `i` is stored.
pub fn plan_batch(req: &BatchRequest, exists: &Vec<bool>, server_url: &str, repo: &str) -> (r: Vec<
    Option<Action>,
>)
    requires
        exists@.len() == req.objects@.len(),
    ensures
        r@.len() == req.objects@.len(),
        forall|i: int|
            0 <= i < r@.len() ==> action_view(#[trigger] r@[i]) == object_action(
                req.operation@,
                server_url@,
                repo@,
                oid_view(req.objects@[i]),
                exists@[i],
            ),
{
    let repo_is_safe = crate::shard::is_safe_repo(repo);
    let mut r: Vec<Option<Action>> = Vec::new();
    let mut i: usize = 0;
    while i < req.objects.len()
        invariant
            i <= req.objects@.len(),
            exists@.len() == req.objects@.len(),
            r@.len() == i,
            repo_is_safe == crate::shard::safe_repo(repo@),
            forall|j: int|
                0 <= j < i ==> action_view(#[trigger] r@[j]) == object_action(
                    req.operation@,
                    server_url@,
                    repo@,
                    oid_view(req.objects@[j]),
                    exists@[j],
                ),
        decreases req.objects@.len() - i,
    {
        r.push(action_for(req.operation.as_str(), server_url, repo, repo_is_safe, &req.objects[i], exists[i]));
        i = i + 1;
    }
    r
}

/// The string member `key` of a JSON value, if it has one.
pub open spec fn str_member(v: serde_json::Value, key: Seq<char>) -> Option<Seq<char>> {
    match json_member_of(v, key) {
        Some(m) => json_str_of(m),
        None => None,
    }
}

/// The operation a batch document asks for: its string `operation` member, or empty.
pub open spec fn operation_of(doc: serde_json::Value) -> Seq<char> {
    match str_member(doc, "operation"@) {
        Some(s) => s,
        None => Seq::empty(),
    }
}

/// The requested objects of a batch document: the elements of its array
/// `objects` member, or none.
pub open spec fn requested_of(doc: serde_json::Value) -> Seq<serde_json::Value> {
    match json_member_of(doc, "objects"@) {
        Some(a) => match json_elements_of(a) {
            Some(items) => items,
            None => Seq::empty(),
        },
        None => Seq::empty(),
    }
}

/// The member names of a JSON value, none when it is not an object.
pub open spec fn fields_or_none(v: serde_json::Value) -> Set<Seq<char>> {
    match json_fields_of(v) {
        Some(k) => k,
        None => Set::empty(),
    }
}

/// `r` is the request that document `doc` describes: its operation, and one
/// object per requested element, in order, with that element's string `oid`
/// and member names.
pub open spec fn describes_request(doc: serde_json::Value, r: BatchRequest) -> bool {
    &&& r.operation@ == operation_of(doc)
    &&& r.objects@.len() == requested_of(doc).len()
    &&& forall|i: int|
        0 <= i < r.objects@.len() ==> oid_view(#[trigger] r.objects@[i]) == str_member(
            requested_of(doc)[i],
            "oid"@,
        ) && json_keys(r.objects@[i].fields) == fields_or_none(requested_of(doc)[i])
}

pub open spec fn empty_request(r: BatchRequest) -> bool {
    r.operation@.len() == 0 && r.objects@.len() == 0
}

/// The request that a decoded batch document describes.
pub fn batch_request_from(doc: &serde_json::Value) -> (r: BatchRequest)
    ensures
        describes_request(*doc, r),
{
    let operation = match json_member(doc, "operation") {
        Some(op) => match json_as_str(op) {
            Some(s) => s,
            None => String::new(),
        },
        None => String::new(),
    };
    let mut objects: Vec<RequestObject> = Vec::new();
    let empty: Vec<serde_json::Value> = Vec::new();
    let items: &Vec<serde_json::Value> = match json_member(doc, "objects") {
        Some(list) => match json_as_array(list) {
            Some(items) => items,
            None => &empty,
        },
        None => &empty,
    };
    assert(items@ == requested_of(*doc));
    let mut i: usize = 0;
    while i < items.len()
        invariant
            i <= items@.len(),
            items@ == requested_of(*doc),
            objects@.len() == i,
            forall|j: int|
                0 <= j < i ==> oid_view(#[trigger] objects@[j]) == str_member(items@[j], "oid"@)
                    && json_keys(objects@[j].fields) == fields_or_none(items@[j]),
        decreases items@.len() - i,
    {
        let oid = match json_member(&items[i], "oid") {
            Some(v) => json_as_str(v),
            None => None,
        };
        let fields = match json_as_object(&items[i]) {
            Some(m) => json_map_clone(m),
            None => json_map_new(),
        };
        objects.push(RequestObject { oid, fields });
        i = i + 1;
    }
    BatchRequest { operation, objects }
}

/// Decodes a batch request body. A body that is not a JSON document reads as
/// an empty request; otherwise the request is what the document describes.
pub fn parse_batch_request(body: &[u8]) -> (r: BatchRequest)
    ensures
        !json_ok(body@) ==> empty_request(r),
        json_ok(body@) ==> exists|doc: serde_json::Value| describes_request(doc, r),
        body@.len() == 0 ==> empty_request(r),
{
    match json_parse(body) {
        Some(doc) => batch_request_from(&doc),
        None => BatchRequest { operation: String::new(), objects: Vec::new() },
    }
}

/// The number of requested objects that have an identifier.
pub open spec fn count_with_oid(objects: Seq<RequestObject>) -> nat
    decreases objects.len(),
{
    if objects.len() == 0 {
        0
    } else {
        count_with_oid(objects.drop_last()) + if objects.last().oid is Some {
            1nat
        } else {
            0nat
        }
    }
}

proof fn lemma_count_prefix(s: Seq<RequestObject>, j: int, i: int)
    requires
        0 <= j <= i <= s.len(),
    ensures
        count_with_oid(s.subrange(0, j)) <= count_with_oid(s.subrange(0, i)),
        j < i && s[j].oid is Some ==> count_with_oid(s.subrange(0, j)) < count_with_oid(s.subrange(0, i)),
    decreases i - j,
{
    if j < i {
        lemma_count_prefix(s, j, i - 1);
        assert(s.subrange(0, i).drop_last() =~= s.subrange(0, i - 1));
        if j == i - 1 {
            assert(s.subrange(0, i).last() == s[j]);
        }
    }
}

/// One object of a batch response.
pub struct EchoedObject {
    pub oid: String,
    pub authenticated: bool,
    pub action: Option<Action>,
    pub fields: serde_json::Map<String, serde_json::Value>,
}

/// A batch response, before it is written as JSON.
pub struct BatchResponse {
    pub transfer: String,
    pub objects: Vec<EchoedObject>,
}

/// `e` echoes requested object `o`: the same identifier and member names, not
/// authenticated, and the action that `object_action` gives.
pub open spec fn echoes(
    e: EchoedObject,
    o: RequestObject,
    operation: Seq<char>,
    server_url: Seq<char>,
    repo: Seq<char>,
    exists: bool,
) -> bool {
    &&& oid_view(o) == Some(e.oid@)
    &&& !e.authenticated
    &&& action_view(e.action) == object_action(operation, server_url, repo, oid_view(o), exists)
    &&& json_keys(e.fields) == json_keys(o.fields)
}

/// `r` answers `req`: transfer `basic`, and one echoed object per requested
/// object that has an identifier, in request order.
pub open spec fn answers(
    r: BatchResponse,
    req: BatchRequest,
    exists: Seq<bool>,
    server_url: Seq<char>,
    repo: Seq<char>,
) -> bool {
    &&& r.transfer@ == "basic"@
    &&& r.objects@.len() == count_with_oid(req.objects@)
    &&& forall|i: int|
        0 <= i < req.objects@.len() && (#[trigger] req.objects@[i]).oid is Some ==> echoes(
            r.objects@[count_with_oid(req.objects@.subrange(0, i)) as int],
            req.objects@[i],
            req.operation@,
            server_url,
            repo,
            exists[i],
        )
}

/// The response to a decoded batch request, `exists[i]` telling whether
/// object `i` is stored.
pub fn batch_response(req: &BatchRequest, exists: &Vec<bool>, server_url: &str, repo: &str) -> (r: BatchResponse)
    requires
        exists@.len() == req.objects@.len(),
    ensures
        answers(r, *req, exists@, server_url@, repo@),
{
    let repo_is_safe = crate::shard::is_safe_repo(repo);
    let mut out: Vec<EchoedObject> = Vec::new();
    let mut i: usize = 0;
    assert(req.objects@.subrange(0, 0) =~= Seq::<RequestObject>::empty());
    while i < req.objects.len()
        invariant
            i <= req.objects@.len(),
            exists@.len() == req.objects@.len(),
            repo_is_safe == crate::shard::safe_repo(repo@),
            out@.len() == count_with_oid(req.objects@.subrange(0, i as int)),
            forall|j: int|
                0 <= j < i && (#[trigger] req.objects@[j]).oid is Some ==> echoes(
                    out@[count_with_oid(req.objects@.subrange(0, j)) as int],
                    req.objects@[j],
                    req.operation@,
                    server_url@,
                    repo@,
                    exists@[j],
                ),
        decreases req.objects@.len() - i,
    {
        assert(req.objects@.subrange(0, i + 1).drop_last() =~= req.objects@.subrange(0, i as int));
        let ghost before = out@;
        if let Some(oid) = &req.objects[i].oid {
            let e = EchoedObject {
                oid: oid.clone(),
                authenticated: false,
                action: action_for(req.operation.as_str(), server_url, repo, repo_is_safe, &req.objects[i], exists[i]),
                fields: json_map_clone(&req.objects[i].fields),
            };
            out.push(e);
        }
        proof {
            assert forall|j: int|
                0 <= j < i + 1 && (#[trigger] req.objects@[j]).oid is Some implies echoes(
                    out@[count_with_oid(req.objects@.subrange(0, j)) as int],
                    req.objects@[j],
                    req.operation@,
                    server_url@,
                    repo@,
                    exists@[j],
                ) by {
                lemma_count_prefix(req.objects@, j, i as int);
                if j < i {
                    assert(out@[count_with_oid(req.objects@.subrange(0, j)) as int]
                        == before[count_with_oid(req.objects@.subrange(0, j)) as int]);
                }
            }
        }
        i = i + 1;
    }
    assert(req.objects@.subrange(0, i as int) =~= req.objects@);
    BatchResponse { transfer: String::from_str("basic"), objects: out }
}

/// The member names of an echoed object: those it was sent with, plus
/// `authenticated`, plus `actions` where an action is attached.
pub open spec fn echoed_keys(sent: Set<Seq<char>>, has_action: bool) -> Set<Seq<char>> {
    if has_action {
        sent.insert("authenticated"@).insert("actions"@)
    } else {
        sent.insert("authenticated"@)
    }
}

/// `d` is the JSON form of action `a`: `href` and `expires_in`.
pub open spec fn action_written(d: serde_json::Value, a: Action) -> bool {
    &&& str_member(d, "href"@) == Some(a.href@)
    &&& json_member_of(d, "expires_in"@) matches Some(n) && json_u64_of(n) == Some(a.expires_in)
}

/// `v` is the JSON form of echoed object `e`.
pub open spec fn echo_written(v: serde_json::Value, e: EchoedObject) -> bool {
    &&& json_fields_of(v) == Some(echoed_keys(json_keys(e.fields), e.action is Some))
    &&& json_member_of(v, "authenticated"@) matches Some(b) && json_bool_of(b) == Some(e.authenticated)
    &&& e.action matches Some(a) ==> (json_member_of(v, "actions"@) matches Some(acts)
        && json_member_of(acts, kind_name(a.kind)) matches Some(d) && action_written(d, a))
}

/// `v` is the JSON form of response `r`.
pub open spec fn response_written(v: serde_json::Value, r: BatchResponse) -> bool {
    &&& json_fields_of(v) == Some(set!["transfer"@, "objects"@])
    &&& str_member(v, "transfer"@) == Some(r.transfer@)
    &&& json_member_of(v, "objects"@) matches Some(list) && json_elements_of(list) matches Some(items)
        && items.len() == r.objects@.len()
        && forall|i: int| 0 <= i < items.len() ==> echo_written(#[trigger] items[i], r.objects@[i])
}

/// The action descriptor: members `href` and `expires_in`.
fn action_json(a: &Action) -> (r: serde_json::Value)
    ensures
        action_written(r, *a),
{
    let mut d = json_map_new();
    json_map_insert(&mut d, "href", json_string(a.href.clone()));
    json_map_insert(&mut d, "expires_in", json_u64(a.expires_in));
    proof {
        reveal_strlit("href");
        reveal_strlit("expires_in");
        assert("href"@ != "expires_in"@ ) by { assert("href"@.len() != "expires_in"@.len()); }
    }
    let r = json_object(d);
    assert(json_member_of(r, "href"@) == json_map_member(d, "href"@));
    assert(json_member_of(r, "expires_in"@) == json_map_member(d, "expires_in"@));
    r
}

/// One echoed object in JSON: its members as sent, `authenticated`, and the
/// action, if any, added under `actions` beside the actions it already had.
pub fn echo_object(e: &EchoedObject) -> (r: serde_json::Value)
    ensures
        echo_written(r, *e),
{
    proof {
        reveal_strlit("authenticated");
        reveal_strlit("actions");
        assert("authenticated"@ != "actions"@) by { assert("authenticated"@.len() != "actions"@.len()); }
    }
    let mut m = json_map_clone(&e.fields);
    json_map_insert(&mut m, "authenticated", json_bool(e.authenticated));
    if let Some(a) = &e.action {
        let mut acts = match json_map_get(&m, "actions") {
            Some(existing) => match json_as_object(existing) {
                Some(am) => json_map_clone(am),
                None => json_map_new(),
            },
            None => json_map_new(),
        };
        match a.kind {
            TransferKind::Upload => json_map_insert(&mut acts, "upload", action_json(a)),
            TransferKind::Download => json_map_insert(&mut acts, "download", action_json(a)),
        }
        let av = json_object(acts);
        assert(json_member_of(av, kind_name(a.kind)) == json_map_member(acts, kind_name(a.kind)));
        json_map_insert(&mut m, "actions", av);
    }
    let r = json_object(m);
    assert(json_member_of(r, "authenticated"@) == json_map_member(m, "authenticated"@));
    assert(json_member_of(r, "actions"@) == json_map_member(m, "actions"@));
    r
}

/// The batch response as JSON text: `{"transfer":...,"objects":[...]}`.
pub fn render_batch_response(resp: &BatchResponse) -> (r: String)
    ensures
        exists|v: serde_json::Value| r@ == json_text_of(v) && response_written(v, *resp),
{
    let mut out: Vec<serde_json::Value> = Vec::new();
    let mut i: usize = 0;
    while i < resp.objects.len()
        invariant
            i <= resp.objects@.len(),
            out@.len() == i,
            forall|j: int| 0 <= j < i ==> echo_written(#[trigger] out@[j], resp.objects@[j]),
        decreases resp.objects@.len() - i,
    {
        out.push(echo_object(&resp.objects[i]));
        i = i + 1;
    }
    let mut top = json_map_new();
    json_map_insert(&mut top, "transfer", json_string(resp.transfer.clone()));
    let list = json_array(out);
    json_map_insert(&mut top, "objects", list);
    proof {
        reveal_strlit("transfer");
        reveal_strlit("objects");
        assert("transfer"@ != "objects"@) by { assert("transfer"@.len() != "objects"@.len()); }
    }
    let v = json_object(top);
    assert(json_member_of(v, "transfer"@) == json_map_member(top, "transfer"@));
    assert(json_member_of(v, "objects"@) == json_map_member(top, "objects"@));
    assert(json_keys(top) =~= set!["transfer"@, "objects"@]);
    let r = json_text(&v);
    assert(response_written(v, *resp));
    r
}

/// Answers a decoded batch request, `exists[i]` telling whether object `i` is
/// stored: the JSON text of the response that `batch_response` gives.
pub fn objects_batch(req: &BatchRequest, exists: &Vec<bool>, server_url: &str, repo: &str) -> (r: String)
    requires
        exists@.len() == req.objects@.len(),
    ensures
        exists|resp: BatchResponse, v: serde_json::Value|
            answers(resp, *req, exists@, server_url@, repo@) && response_written(v, resp)
                && r@ == json_text_of(v),
{
    let resp = batch_response(req, exists, server_url, repo);
    render_batch_response(&resp)
}

/// In a batch response, the echoed object of requested object `i` (one that
/// has an identifier) keeps its identifier and carries the action that
/// `object_action` gives for whether that object is stored under `root`.
pub proof fn lemma_response_action(
    resp: BatchResponse,
    req: BatchRequest,
    store: Map<Seq<char>, Seq<u8>>,
    root: Seq<char>,
    server_url: Seq<char>,
    repo: Seq<char>,
    exists: Seq<bool>,
    i: int,
)
    requires
        answers(resp, req, exists, server_url, repo),
        0 <= i < req.objects@.len(),
        req.objects@[i].oid is Some,
        exists[i] == store.contains_key(object_path_of(root, repo, req.objects@[i].oid.unwrap()@)),
    ensures
        count_with_oid(req.objects@.subrange(0, i)) < resp.objects@.len(),
        resp.objects@[count_with_oid(req.objects@.subrange(0, i)) as int].oid@ == req.objects@[i].oid.unwrap()@,
        action_view(resp.objects@[count_with_oid(req.objects@.subrange(0, i)) as int].action) == object_action(
            req.operation@,
            server_url,
            repo,
            Some(req.objects@[i].oid.unwrap()@),
            store.contains_key(object_path_of(root, repo, req.objects@[i].oid.unwrap()@)),
        ),
{
    lemma_count_prefix(req.objects@, i, req.objects@.len() as int);
    assert(req.objects@.subrange(0, req.objects@.len() as int) =~= req.objects@);
    assert(req.objects@[i].oid is Some);
}

/// A batch asking to upload an object that is not stored gets an upload action
/// valid for a day; once that object is uploaded, the same batch gets none.
pub proof fn lemma_upload_batch_before_and_after(
    store: Map<Seq<char>, Seq<u8>>,
    root: Seq<char>,
    repo: Seq<char>,
    server_url: Seq<char>,
    oid: Seq<char>,
    body: Seq<u8>,
)
    requires
        transfer_allowed(repo, Some(oid)),
        !store.contains_key(object_path_of(root, repo, oid)),
    ensures
        object_action("upload"@, server_url, repo, Some(oid), store.contains_key(object_path_of(root, repo, oid)))
            == Some(
            ActionModel {
                kind: TransferKind::Upload,
                href: href_of(server_url, repo, TransferKind::Upload, oid),
                expires_in: 86400,
            },
        ),
        object_action(
            "upload"@,
            server_url,
            repo,
            Some(oid),
            after_upload(store, object_path_of(root, repo, oid), body).contains_key(
                object_path_of(root, repo, oid),
            ),
        ) is None,
{
    reveal_strlit("upload");
    reveal_strlit("download");
    assert("upload"@[0] != "download"@[0]);
}

/// A batch asking to download an object that is not stored gets no download
/// action; once that object is uploaded, the same batch gets one.
pub proof fn lemma_download_batch_before_and_after(
    store: Map<Seq<char>, Seq<u8>>,
    root: Seq<char>,
    repo: Seq<char>,
    server_url: Seq<char>,
    oid: Seq<char>,
    body: Seq<u8>,
)
    requires
        transfer_allowed(repo, Some(oid)),
        !store.contains_key(object_path_of(root, repo, oid)),
    ensures
        object_action("download"@, server_url, repo, Some(oid), store.contains_key(object_path_of(root, repo, oid)))
            is None,
        object_action(
            "download"@,
            server_url,
            repo,
            Some(oid),
            after_upload(store, object_path_of(root, repo, oid), body).contains_key(
                object_path_of(root, repo, oid),
            ),
        ) == Some(
            ActionModel {
                kind: TransferKind::Download,
                href: href_of(server_url, repo, TransferKind::Download, oid),
                expires_in: 86400,
            },
        ),
{
    reveal_strlit("upload");
    reveal_strlit("download");
    assert("upload"@[0] != "download"@[0]);
}

} // verus!
