use std::collections::HashMap;

use lfs_store::{
    action_href, action_kind, decimal, download_response, empty_response, json_response,
    locate_object, object_paths, objects_batch, parse_batch_request, plan_batch, query_param, transfer_target,
    query_value, upload_status, write_action, ReadOutcome, StoreOutcome, TransferKind, WriteAction,
    ACTION_EXPIRES_IN,
};

const SERVER: &str = "http://host/lfs.cgi";
const ROOT: &str = "data/";

/// An upload as the service performs it, against an in-memory store.
fn do_upload(store: &mut HashMap<String, Vec<u8>>, repo: &str, query: &str, body: &[u8]) -> u16 {
    let loc = match transfer_target(ROOT, repo, query) {
        Some(loc) => loc,
        None => return 404,
    };
    let outcome = match write_action(store.contains_key(&loc.path)) {
        WriteAction::Keep => StoreOutcome::AlreadyPresent,
        WriteAction::Create => {
            store.insert(loc.path.clone(), body.to_vec());
            StoreOutcome::Stored
        }
    };
    upload_status(outcome)
}

fn do_download(store: &HashMap<String, Vec<u8>>, repo: &str, query: &str) -> (u16, Vec<u8>) {
    let loc = match transfer_target(ROOT, repo, query) {
        Some(loc) => loc,
        None => return (404, Vec::new()),
    };
    let outcome = match store.get(&loc.path) {
        Some(b) => ReadOutcome::Bytes(b.clone()),
        None => ReadOutcome::Missing,
    };
    let r = download_response(outcome);
    (r.status, r.body)
}

fn do_batch(store: &HashMap<String, Vec<u8>>, repo: &str, body: &str) -> serde_json::Value {
    let req = parse_batch_request(body.as_bytes());
    let exists: Vec<bool> = object_paths(ROOT, repo, &req)
        .iter()
        .map(|p| p.as_ref().map_or(false, |p| store.contains_key(p)))
        .collect();
    let text = objects_batch(&req, &exists, SERVER, repo);
    serde_json::from_str(&text).unwrap()
}

#[test]
fn example_scenario() {
    let mut store = HashMap::new();
    let batch = r#"{"operation":"upload","objects":[{"oid":"abcd1234"}]}"#;
    let resp = do_batch(&store, "myrepo/", batch);
    assert_eq!(resp["transfer"], "basic");
    let href = resp["objects"][0]["actions"]["upload"]["href"].as_str().unwrap();
    assert!(href.ends_with("/myrepo/upload?oid=abcd1234"));
    assert_eq!(href, "http://host/lfs.cgi/myrepo/upload?oid=abcd1234");
    assert_eq!(resp["objects"][0]["actions"]["upload"]["expires_in"], 86400);
    assert_eq!(resp["objects"][0]["authenticated"], false);

    assert_eq!(do_upload(&mut store, "myrepo/", "oid=abcd1234", b"hello"), 200);
    assert!(store.contains_key("data/myrepo/objects/ab/cd/abcd1234"));
    let resp = do_batch(&store, "myrepo/", batch);
    assert!(resp["objects"][0].get("actions").is_none());
    assert_eq!(do_download(&store, "myrepo/", "oid=abcd1234"), (200, b"hello".to_vec()));
}

#[test]
fn upload_twice_keeps_first_bytes() {
    let mut store = HashMap::new();
    assert_eq!(do_upload(&mut store, "r/", "oid=cafe0001", b"same"), 200);
    let after_first = store.clone();
    assert_eq!(do_upload(&mut store, "r/", "oid=cafe0001", b"same"), 200);
    assert_eq!(store, after_first);
    assert_eq!(do_upload(&mut store, "r/", "oid=cafe0001", b"other"), 200);
    assert_eq!(do_download(&store, "r/", "oid=cafe0001").1, b"same".to_vec());
}

#[test]
fn upload_then_download_round_trip() {
    let mut store = HashMap::new();
    let bytes: Vec<u8> = (0u8..=255).collect();
    assert_eq!(do_upload(&mut store, "r/", "oid=00ff00ff", &bytes), 200);
    assert_eq!(do_download(&store, "r/", "oid=00ff00ff"), (200, bytes));
    assert_eq!(do_upload(&mut store, "r/", "oid=e", b""), 200);
    assert_eq!(do_download(&store, "r/", "oid=e"), (200, Vec::new()));
}

#[test]
fn upload_batch_before_and_after() {
    let mut store = HashMap::new();
    let batch = r#"{"operation":"upload","objects":[{"oid":"1234abcd","size":5}]}"#;
    let resp = do_batch(&store, "r/", batch);
    assert_eq!(resp["objects"][0]["actions"]["upload"]["expires_in"], 86400);
    assert_eq!(resp["objects"][0]["size"], 5);
    do_upload(&mut store, "r/", "oid=1234abcd", b"data");
    let resp = do_batch(&store, "r/", batch);
    assert!(resp["objects"][0].get("actions").is_none());
    assert_eq!(resp["objects"][0]["size"], 5);
}

#[test]
fn download_batch_before_and_after() {
    let mut store = HashMap::new();
    let batch = r#"{"operation":"download","objects":[{"oid":"1234abcd"}]}"#;
    let resp = do_batch(&store, "r/", batch);
    assert!(resp["objects"][0].get("actions").is_none());
    do_upload(&mut store, "r/", "oid=1234abcd", b"data");
    let resp = do_batch(&store, "r/", batch);
    assert_eq!(
        resp["objects"][0]["actions"]["download"]["href"],
        "http://host/lfs.cgi/r/download?oid=1234abcd"
    );
    assert_eq!(resp["objects"][0]["actions"]["download"]["expires_in"], 86400);
}

#[test]
fn missing_or_empty_oid_is_not_found() {
    let mut store = HashMap::new();
    assert_eq!(do_download(&store, "r/", "oid=deadbeef").0, 404);
    assert_eq!(do_upload(&mut store, "r/", "", b"x"), 404);
    assert_eq!(do_upload(&mut store, "r/", "oid=", b"x"), 404);
    assert_eq!(do_upload(&mut store, "r/", "other=1", b"x"), 404);
    assert_eq!(do_download(&store, "r/", "oid=").0, 404);
    assert_eq!(do_download(&store, "r/", "").0, 404);
    assert!(store.is_empty());
}

#[test]
fn traversal_is_refused() {
    let mut store = HashMap::new();
    assert_eq!(do_upload(&mut store, "r/", "oid=..%2F..%2Fpasswd", b"x"), 404);
    assert_eq!(do_upload(&mut store, "../up/", "oid=abcd", b"x"), 404);
    assert!(store.is_empty());
    assert!(locate_object(ROOT, "r/", Some("a/b")).is_none());
    assert!(locate_object(ROOT, "r/", None).is_none());
    let loc = locate_object(ROOT, "r/", Some("abcdef")).unwrap();
    assert_eq!(loc.dir, "data/r/objects/ab/cd");
    assert_eq!(loc.path, "data/r/objects/ab/cd/abcdef");
    let loc = transfer_target(ROOT, "r/", "x=1&oid=abc%64ef").unwrap();
    assert_eq!(loc.path, "data/r/objects/ab/cd/abcdef");
}

#[test]
fn batch_drops_objects_without_oid() {
    let store = HashMap::new();
    let batch = r#"{"operation":"upload","objects":[{"size":1},{"oid":"abcd"},{"oid":7},{"oid":"ef01","x":[1]}]}"#;
    let resp = do_batch(&store, "r/", batch);
    let objs = resp["objects"].as_array().unwrap();
    assert_eq!(objs.len(), 2);
    assert_eq!(objs[0]["oid"], "abcd");
    assert_eq!(objs[1]["oid"], "ef01");
    assert_eq!(objs[1]["x"][0], 1);
    assert_eq!(objs[1]["authenticated"], false);
}

#[test]
fn batch_keeps_existing_actions() {
    let store = HashMap::new();
    let batch = r#"{"operation":"upload","objects":[{"oid":"abcd","actions":{"verify":{"href":"v"}}}]}"#;
    let resp = do_batch(&store, "r/", batch);
    assert_eq!(resp["objects"][0]["actions"]["verify"]["href"], "v");
    assert_eq!(resp["objects"][0]["actions"]["upload"]["href"], "http://host/lfs.cgi/r/upload?oid=abcd");
}

#[test]
fn malformed_batch_is_empty() {
    let store = HashMap::new();
    let resp = do_batch(&store, "r/", "this is not json");
    assert_eq!(resp["transfer"], "basic");
    assert_eq!(resp["objects"].as_array().unwrap().len(), 0);
    let req = parse_batch_request(b"");
    assert!(req.operation.is_empty());
    assert!(req.objects.is_empty());
    let req = parse_batch_request(br#"{"operation":5,"objects":"none"}"#);
    assert!(req.operation.is_empty());
    assert!(req.objects.is_empty());
}

#[test]
fn unknown_operation_gets_no_actions() {
    let req = parse_batch_request(br#"{"operation":"verify","objects":[{"oid":"abcd"}]}"#);
    assert_eq!(req.operation, "verify");
    let plan = plan_batch(&req, &vec![false], SERVER, "r/");
    assert_eq!(plan.len(), 1);
    assert!(plan[0].is_none());
}

#[test]
fn plan_for_each_case() {
    let req = parse_batch_request(br#"{"operation":"upload","objects":[{"oid":"aaaa"},{"oid":"bbbb"},{"n":1},{"oid":"../x"}]}"#);
    let plan = plan_batch(&req, &vec![false, true, false, false], "http://s/", "/r/");
    assert_eq!(plan.len(), 4);
    let a = plan[0].as_ref().unwrap();
    assert_eq!(a.kind, TransferKind::Upload);
    assert_eq!(a.href, "http://s/r/upload?oid=aaaa");
    assert_eq!(a.expires_in, ACTION_EXPIRES_IN);
    assert!(plan[1].is_none());
    assert!(plan[2].is_none());
    assert!(plan[3].is_none());
}

#[test]
fn action_kinds() {
    assert_eq!(action_kind("upload", false), Some(TransferKind::Upload));
    assert_eq!(action_kind("upload", true), None);
    assert_eq!(action_kind("download", true), Some(TransferKind::Download));
    assert_eq!(action_kind("download", false), None);
    assert_eq!(action_kind("", false), None);
    assert_eq!(action_href("http://s//", "r/", TransferKind::Download, "ab"), "http://s/r/download?oid=ab");
    assert_eq!(action_href("http://s", "/", TransferKind::Upload, "ab"), "http://s/upload?oid=ab");
}

#[test]
fn query_parameters_are_decoded() {
    assert_eq!(query_param("oid=abc%20def&x=1", "oid").as_deref(), Some("abc def"));
    assert_eq!(query_param("x=1&oid=a+b", "oid").as_deref(), Some("a b"));
    assert_eq!(query_param("oid=first&oid=second", "oid").as_deref(), Some("second"));
    assert_eq!(query_param("x=1", "oid"), None);
    assert_eq!(query_param("", "oid"), None);
    let pairs = vec![("a".to_string(), "1".to_string()), ("b".to_string(), "2".to_string()), ("a".to_string(), "3".to_string())];
    assert_eq!(query_value(&pairs, "a").as_deref(), Some("3"));
    assert_eq!(query_value(&pairs, "b").as_deref(), Some("2"));
    assert_eq!(query_value(&pairs, "c"), None);
}

#[test]
fn download_headers() {
    let r = download_response(ReadOutcome::Bytes(b"hello".to_vec()));
    assert_eq!(r.status, 200);
    assert_eq!(r.body, b"hello".to_vec());
    let h: Vec<(&str, &str)> = r.headers.iter().map(|(k, v)| (k.as_str(), v.as_str())).collect();
    assert_eq!(
        h,
        vec![
            ("Content-Type", "application/octet-stream"),
            ("Cache-Control", "must-revalidate"),
            ("Expires", "0"),
            ("Pragma", "public"),
            ("Content-Length", "5"),
        ]
    );
    let r = download_response(ReadOutcome::Missing);
    assert_eq!(r.status, 404);
    assert!(r.body.is_empty());
    let r = download_response(ReadOutcome::Failed);
    assert_eq!(r.status, 500);
}

#[test]
fn statuses_and_responses() {
    assert_eq!(upload_status(StoreOutcome::Stored), 200);
    assert_eq!(upload_status(StoreOutcome::AlreadyPresent), 200);
    assert_eq!(upload_status(StoreOutcome::DirFailed), 500);
    assert_eq!(upload_status(StoreOutcome::WriteFailed), 500);
    assert_eq!(write_action(true), WriteAction::Keep);
    assert_eq!(write_action(false), WriteAction::Create);
    let r = json_response(200, "{}");
    assert_eq!(r.body, b"{}".to_vec());
    assert_eq!(r.headers, vec![("Content-Type".to_string(), "application/json".to_string())]);
    let r = empty_response(404);
    assert_eq!(r.status, 404);
    assert!(r.headers.is_empty() && r.body.is_empty());
}

#[test]
fn decimal_digits() {
    assert_eq!(decimal(0), "0");
    assert_eq!(decimal(7), "7");
    assert_eq!(decimal(10), "10");
    assert_eq!(decimal(86400), "86400");
    assert_eq!(decimal(usize::MAX), usize::MAX.to_string());
}

#[test]
fn echoed_object_members() {
    let mut fields = serde_json::Map::new();
    fields.insert("oid".to_string(), serde_json::Value::from("abcd"));
    fields.insert("size".to_string(), serde_json::Value::from(3u64));
    let e = lfs_store::EchoedObject {
        oid: "abcd".to_string(),
        authenticated: false,
        action: None,
        fields: fields.clone(),
    };
    let v = lfs_store::echo_object(&e);
    let m = v.as_object().unwrap();
    let mut keys: Vec<&str> = m.keys().map(|k| k.as_str()).collect();
    keys.sort();
    assert_eq!(keys, vec!["authenticated", "oid", "size"]);
    assert_eq!(m["authenticated"], false);
    assert_eq!(m["size"], 3);
    let action = lfs_store::Action {
        kind: TransferKind::Upload,
        href: "h".to_string(),
        expires_in: ACTION_EXPIRES_IN,
    };
    let e = lfs_store::EchoedObject { oid: "abcd".to_string(), authenticated: false, action: Some(action), fields };
    let v = lfs_store::echo_object(&e);
    let mut keys: Vec<&str> = v.as_object().unwrap().keys().map(|k| k.as_str()).collect();
    keys.sort();
    assert_eq!(keys, vec!["actions", "authenticated", "oid", "size"]);
    assert_eq!(v["actions"]["upload"]["href"], "h");
    assert_eq!(v["actions"]["upload"]["expires_in"], 86400);
}

#[test]
fn response_holds_objects_with_oid_in_order() {
    let req = parse_batch_request(br#"{"operation":"download","objects":[{"oid":"bbbb"},{},{"oid":"aaaa","n":1}]}"#);
    let resp = lfs_store::batch_response(&req, &vec![true, false, false], SERVER, "r/");
    assert_eq!(resp.transfer, "basic");
    assert_eq!(resp.objects.len(), 2);
    assert_eq!(resp.objects[0].oid, "bbbb");
    assert!(!resp.objects[0].authenticated);
    let a = resp.objects[0].action.as_ref().unwrap();
    assert_eq!(a.kind, TransferKind::Download);
    assert_eq!(a.href, "http://host/lfs.cgi/r/download?oid=bbbb");
    assert_eq!(resp.objects[1].oid, "aaaa");
    assert!(resp.objects[1].action.is_none());
    assert!(resp.objects[1].fields.contains_key("n"));
    let text = lfs_store::render_batch_response(&resp);
    let v: serde_json::Value = serde_json::from_str(&text).unwrap();
    assert_eq!(v["objects"][0]["oid"], "bbbb");
    assert_eq!(v["objects"][1]["oid"], "aaaa");
    assert_eq!(v["objects"][1]["n"], 1);
}

#[test]
fn request_from_document() {
    let doc: serde_json::Value =
        serde_json::from_str(r#"{"operation":"upload","objects":[{"oid":"x1"},5,{"oid":true}]}"#).unwrap();
    let req = lfs_store::batch_request_from(&doc);
    assert_eq!(req.operation, "upload");
    assert_eq!(req.objects.len(), 3);
    assert_eq!(req.objects[0].oid.as_deref(), Some("x1"));
    assert!(req.objects[1].oid.is_none());
    assert!(req.objects[1].fields.is_empty());
    assert!(req.objects[2].oid.is_none());
}
