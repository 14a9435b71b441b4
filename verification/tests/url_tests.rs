use apify_client::key_value_store::{key_value_store_url_segment, record_url_path};

#[test]
fn store_url_segment_carries_the_identifier() {
    assert_eq!(key_value_store_url_segment("abc123"), "key-value-stores/abc123");
    assert_eq!(
        key_value_store_url_segment("someuser~some-store"),
        "key-value-stores/someuser~some-store"
    );
}

#[test]
fn record_path_joins_segment_and_key() {
    let segment = key_value_store_url_segment("abc123");
    assert_eq!(
        record_url_path(&segment, "my-key"),
        "key-value-stores/abc123/records/my-key"
    );
    assert_eq!(record_url_path("key-value-stores/x", ""), "key-value-stores/x/records/");
}
