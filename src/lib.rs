//! Server-side core of a batch-style large-file object store: path sharding,
//! batch negotiation, and the upload/download decisions around a
//! content-addressed object directory.

pub mod batch;
pub mod json;
pub mod query;
pub mod route;
pub mod shard;
pub mod store;
pub mod text;

pub use batch::{
    action_href, action_kind, batch_request_from, batch_response, echo_object, object_paths,
    objects_batch, parse_batch_request, plan_batch, render_batch_response, Action, BatchRequest,
    BatchResponse, EchoedObject, RequestObject, TransferKind, ACTION_EXPIRES_IN,
};
pub use query::{query_param, query_value};
pub use route::{
    extract_repo_dir, extract_script_name, get_server_url, is_logger_init, locks_verify, route,
    Route,
};
pub use shard::{is_safe_oid, is_safe_repo, object_dir, object_path, shard_dirs};
pub use store::{
    decimal, download_response, empty_response, json_response, locate_object, transfer_target,
    upload_status, write_action, ObjectLocation, ReadOutcome, Response, StoreOutcome, WriteAction,
};
pub use text::{slash_process, str_before, str_ends_with};
