//! The client description that the commands build their requests with.

use crate::gitlab_api::{GitLabApi, GitLabApiV4};
use vstd::prelude::*;
use vstd::string::*;

verus! {

/// The environment scope that stands for every environment.
pub const DEFAULT_ENVIRONMENT: &'static str = "All";

/// Returns the description of the GitLab API at `url`, with the token that
/// every request to it carries.
pub fn api_client(url: &str, token: &str) -> (api: GitLabApiV4)
    ensures
        api@.url == url@ + "/api/v4"@,
        api@.token == token@,
{
    GitLabApiV4::new(String::from_str(url), String::from_str(token))
}

} // verus!
