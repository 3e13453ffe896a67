//! A project on a GitLab instance, with the token that gives access to it.

use crate::app_error::{AppError, AppErrorView, Result};
use vstd::prelude::*;
use vstd::string::*;

verus! {

/// Message of the error for a project ID that is empty.
pub const MISSING_PROJECT_ID: &'static str =
    "Please set a valid GitLab project ID (-p, --project-id or $GITLAB_PROJECT_ID variable)";

/// Message of the error for a token that is empty.
pub const MISSING_API_TOKEN: &'static str =
    "Please set a valid GitLab API token (-t, --token or $GITLAB_API_TOKEN variable)";

/// Where a project's variables are read from.
#[derive(Debug)]
pub struct GitLabInstance {
    /// GitLab API URL
    pub url: String,
    /// GitLab's project ID
    pub project_id: String,
    /// A valid GitLab API token
    pub api_token: String,
}

impl GitLabInstance {
    /// An instance names its project and carries a token.
    pub open spec fn well_formed(&self) -> bool {
        self.project_id@.len() > 0 && self.api_token@.len() > 0
    }

    /// Create a object that stores GitLab instance information. A project ID
    /// that is empty is refused, and so is, after it, a token that is empty.
    pub fn new(url: String, project_id: String, api_token: String) -> (instance: Result<Self>)
        ensures
            match instance {
                Ok(i) => {
                    &&& project_id@.len() > 0
                    &&& api_token@.len() > 0
                    &&& i.url@ == url@
                    &&& i.project_id@ == project_id@
                    &&& i.api_token@ == api_token@
                    &&& i.well_formed()
                },
                Err(e) => if project_id@.len() == 0 {
                    e@ == AppErrorView::InvalidInput(MISSING_PROJECT_ID@)
                } else {
                    api_token@.len() == 0 && e@ == AppErrorView::InvalidInput(MISSING_API_TOKEN@)
                },
            },
    {
        if project_id.as_str().is_empty() {
            return Err(AppError::InvalidInput(String::from_str(MISSING_PROJECT_ID)));
        }
        if api_token.as_str().is_empty() {
            return Err(AppError::InvalidInput(String::from_str(MISSING_API_TOKEN)));
        }
        Ok(GitLabInstance { url, project_id, api_token })
    }
}

} // verus!
