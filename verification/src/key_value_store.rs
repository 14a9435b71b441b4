//! The key-value store resource: the record the service describes a store
//! with, and the URL paths its endpoints live under. Building those paths is
//! the only logic of the resource client; the transport around it lives with
//! the caller.

use vstd::prelude::*;
use vstd::string::StringExecFns;

verus! {

/// A key-value store as the service describes it.
#[derive(Clone, Debug)]
pub struct KeyValueStore {
    pub id: String,
    pub name: Option<String>,
    pub user_id: String,
    pub created_at: String,
    pub modified_at: String,
    pub accessed_at: String,
    pub act_id: Option<String>,
    pub act_run_id: Option<String>,
}

/// The URL segment of one key-value store: `key-value-stores/` followed by
/// the store's identifier (an id or a `username~store-name` pair).
pub fn key_value_store_url_segment(identifier: &str) -> (segment: String)
    ensures
        segment@ == "key-value-stores/"@ + identifier@,
{
    let mut segment = String::from_str("key-value-stores/");
    segment.append(identifier);
    segment
}

/// The URL path of one record of a store: the store's URL segment,
/// `/records/`, and the record's key.
pub fn record_url_path(url_segment: &str, key: &str) -> (path: String)
    ensures
        path@ == url_segment@ + "/records/"@ + key@,
{
    let mut path = String::from_str(url_segment);
    path.append("/records/");
    path.append(key);
    path
}

} // verus!
