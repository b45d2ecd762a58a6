//! Addresses of the block HTTP API of a collaboration server.

use vstd::prelude::*;
use vstd::string::StringExecFns;

verus! {

/// Where the block API of the local collaboration server is served.
pub open spec fn block_api_root() -> Seq<char> {
    "http://localhost:3000/api/block/"@
}

/// The address that creates (POST) the workspace `workspace_id`.
pub fn workspace_api_url(workspace_id: &str) -> (url: String)
    ensures
        url@ == block_api_root() + workspace_id@,
{
    let mut url = String::from_str("http://localhost:3000/api/block/");
    url.append(workspace_id);
    url
}

/// The address of the block `block_id` of the workspace `workspace_id`.
pub fn block_api_url(workspace_id: &str, block_id: &str) -> (url: String)
    ensures
        url@ == block_api_root() + workspace_id@ + "/"@ + block_id@,
{
    let mut url = workspace_api_url(workspace_id);
    url.append("/");
    url.append(block_id);
    url
}

} // verus!
