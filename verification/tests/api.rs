use jwst_sync::api::{block_api_url, workspace_api_url};

#[test]
fn block_api_addresses() {
    assert_eq!(workspace_api_url("1"), "http://localhost:3000/api/block/1");
    assert_eq!(block_api_url("1", "7"), "http://localhost:3000/api/block/1/7");
}
