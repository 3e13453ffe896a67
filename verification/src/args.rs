//! What the command line and the process environment hand to a command,
//! before defaults are filled in.

use crate::api_client::DEFAULT_ENVIRONMENT;
use crate::text::{parse_usize, parse_usize_spec};
use vstd::prelude::*;
use vstd::string::*;

verus! {

/// Address of the GitLab instance where none is given.
pub const DEFAULT_URL: &'static str = "https://gitlab.com";

/// Where the GitLab instance is and the token for it, as given on the
/// command line and in the process environment.
#[derive(Debug, PartialEq)]
pub struct InstanceArgs {
    /// Value of `--url`
    pub url: Option<String>,
    /// Value of `--token`
    pub token: Option<String>,
    /// Value of the environment variable `GITLAB_URL`
    pub env_url: Option<String>,
    /// Value of the environment variable `GITLAB_API_TOKEN`
    pub env_token: Option<String>,
}

/// [`InstanceArgs`] with its texts as sequences of characters.
pub struct InstanceArgsView {
    pub url: Option<Seq<char>>,
    pub token: Option<Seq<char>>,
    pub env_url: Option<Seq<char>>,
    pub env_token: Option<Seq<char>>,
}

impl View for InstanceArgs {
    type V = InstanceArgsView;

    open spec fn view(&self) -> InstanceArgsView {
        InstanceArgsView {
            url: self.url.deep_view(),
            token: self.token.deep_view(),
            env_url: self.env_url.deep_view(),
            env_token: self.env_token.deep_view(),
        }
    }
}

impl InstanceArgsView {
    /// The address of the instance: the one of the command line, else the
    /// one of the environment, else `https://gitlab.com`.
    pub open spec fn url(self) -> Seq<char> {
        match self.url {
            Some(url) => url,
            None => match self.env_url {
                Some(url) => url,
                None => DEFAULT_URL@,
            },
        }
    }

    /// The token: the one of the command line, else the one of the
    /// environment, else none at all.
    pub open spec fn token(self) -> Seq<char> {
        match self.token {
            Some(token) => token,
            None => match self.env_token {
                Some(token) => token,
                None => Seq::empty(),
            },
        }
    }
}

/// The environment that a command is about: the one given, else every
/// environment.
pub open spec fn environment_or_default(environment: Option<Seq<char>>) -> Seq<char> {
    match environment {
        Some(name) => name,
        None => DEFAULT_ENVIRONMENT@,
    }
}

/// The number that a numeric argument stands for: the one it writes, else
/// `default`, also where the argument is missing.
pub open spec fn numeric_or_default(value: Option<Seq<char>>, default: usize) -> usize {
    match value {
        Some(text) => match parse_usize_spec(text) {
            Some(n) => n,
            None => default,
        },
        None => default,
    }
}

/// Extracts the address of the GitLab instance.
pub fn extract_url(args: &InstanceArgs) -> (url: String)
    ensures
        url@ == args@.url(),
{
    match &args.url {
        Some(url) => url.clone(),
        None => match &args.env_url {
            Some(url) => url.clone(),
            None => String::from_str(DEFAULT_URL),
        },
    }
}

/// Extracts the token for the GitLab instance.
pub fn extract_token(args: &InstanceArgs) -> (token: String)
    ensures
        token@ == args@.token(),
{
    match &args.token {
        Some(token) => token.clone(),
        None => match &args.env_token {
            Some(token) => token.clone(),
            None => String::new(),
        },
    }
}

/// Extracts the name of the environment.
pub fn extract_environment(environment: &Option<String>) -> (name: String)
    ensures
        name@ == environment_or_default(environment.deep_view()),
{
    match environment {
        Some(name) => name.clone(),
        None => String::from_str(DEFAULT_ENVIRONMENT),
    }
}

/// Returns the number that `value` writes, and `default` where there is no
/// value or it writes none.
pub fn numeric_param_from_args(value: &Option<String>, default: usize) -> (number: usize)
    ensures
        number == numeric_or_default(value.deep_view(), default),
{
    match value {
        Some(text) => match parse_usize(text.as_str()) {
            Some(n) => n,
            None => default,
        },
        None => default,
    }
}

} // verus!
