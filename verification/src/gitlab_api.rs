//! GitLab's variables, the requests that read them and the reading of what
//! comes back.

use crate::app_error::{AppError, AppErrorView};
use crate::text::{decimal, parse_usize, parse_usize_spec, usize_to_string};
use vstd::prelude::*;
use vstd::string::*;

verus! {

/// Status code with which GitLab answers when it has no such variable.
pub const NOT_FOUND: u16 = 404;

/// Name of the header that carries the private token of a request.
pub const TOKEN_HEADER: &'static str = "PRIVATE-TOKEN";

/// GitLab variable type
#[derive(Clone, Copy, Debug, PartialEq, Eq, Structural)]
pub enum GitLabVariableType {
    /// Environment variable type
    EnvVar,
    /// File type
    File,
}

/// GitLab variable information
#[derive(Debug, PartialEq)]
pub struct GitLabVariable {
    /// The type of a variable. Available types are: env_var and file
    pub variable_type: GitLabVariableType,
    /// The key of the variable
    pub key: String,
    /// The value of a variable
    pub value: String,
    /// Variable's environment
    pub environment_scope: String,
}

/// A [`GitLabVariable`] with its texts as sequences of characters.
pub struct VariableView {
    pub variable_type: GitLabVariableType,
    pub key: Seq<char>,
    pub value: Seq<char>,
    pub environment_scope: Seq<char>,
}

impl View for GitLabVariable {
    type V = VariableView;

    open spec fn view(&self) -> VariableView {
        VariableView {
            variable_type: self.variable_type,
            key: self.key@,
            value: self.value@,
            environment_scope: self.environment_scope@,
        }
    }
}

impl DeepView for GitLabVariable {
    type V = VariableView;

    open spec fn deep_view(&self) -> VariableView {
        self@
    }
}

impl VariableView {
    /// A variable names something: its key is not empty.
    pub open spec fn well_formed(self) -> bool {
        self.key.len() > 0
    }

    /// The variable as the commands know it: GitLab writes the scope of
    /// every environment as `*`, the commands as `All`.
    pub open spec fn from_response(self) -> VariableView {
        VariableView {
            environment_scope: if self.environment_scope == "*"@ {
                "All"@
            } else {
                self.environment_scope
            },
            ..self
        }
    }
}

impl Clone for GitLabVariable {
    fn clone(&self) -> (copy: Self)
        ensures
            copy == *self,
    {
        GitLabVariable {
            variable_type: self.variable_type,
            key: self.key.clone(),
            value: self.value.clone(),
            environment_scope: self.environment_scope.clone(),
        }
    }
}

impl GitLabVariable {
    /// Whether the variable names something: whether its key is not empty.
    pub fn is_well_formed(&self) -> (well_formed: bool)
        ensures
            well_formed == self@.well_formed(),
    {
        !self.key.as_str().is_empty()
    }

    /// Copies a variable that GitLab sent, with its scope in the commands'
    /// notation.
    pub fn clone_from_response(&self) -> (variable: GitLabVariable)
        ensures
            variable@ == self@.from_response(),
            variable@.well_formed() == self@.well_formed(),
    {
        let every = String::from_str("*");
        GitLabVariable {
            environment_scope: if self.environment_scope == every {
                String::from_str("All")
            } else {
                self.environment_scope.clone()
            },
            variable_type: self.variable_type,
            key: self.key.clone(),
            value: self.value.clone(),
        }
    }
}

/// GitLab project information
#[derive(Debug, PartialEq)]
pub struct GitLabProject {
    /// GitLab project name
    pub name: String,
    /// Project's variables
    pub variables: Vec<GitLabVariable>,
}

impl Clone for GitLabProject {
    fn clone(&self) -> (copy: Self)
        ensures
            copy.name@ == self.name@,
            copy.variables.deep_view() == self.variables.deep_view(),
    {
        let mut variables: Vec<GitLabVariable> = Vec::new();
        let mut i: usize = 0;
        while i < self.variables.len()
            invariant
                i <= self.variables.len(),
                variables.len() == i,
                forall|j: int| 0 <= j < i ==> #[trigger] variables[j] == self.variables[j],
            decreases self.variables.len() - i,
        {
            variables.push(self.variables[i].clone());
            i = i + 1;
        }
        proof {
            assert(variables.deep_view() =~= self.variables.deep_view());
        }
        GitLabProject { name: self.name.clone(), variables }
    }
}

/// One request to the API: the address to `GET` and the private token that
/// goes with it in the request's header.
#[derive(Debug, PartialEq)]
pub struct ApiRequest {
    /// Address of the resource
    pub url: String,
    /// Value of the `PRIVATE-TOKEN` header
    pub token: String,
}

/// An [`ApiRequest`] with its texts as sequences of characters.
pub struct ApiRequestView {
    pub url: Seq<char>,
    pub token: Seq<char>,
}

impl View for ApiRequest {
    type V = ApiRequestView;

    open spec fn view(&self) -> ApiRequestView {
        ApiRequestView { url: self.url@, token: self.token@ }
    }
}

impl DeepView for ApiRequest {
    type V = ApiRequestView;

    open spec fn deep_view(&self) -> ApiRequestView {
        self@
    }
}

/// Path, below the API's root, of one variable of a project in one
/// environment. The scope of every environment goes out as `*`.
pub open spec fn project_variable_path(project: Seq<char>, name: Seq<char>, env: Seq<char>) -> Seq<
    char,
> {
    "projects/"@ + project + "/variables/"@ + name + "?filter[environment_scope]="@ + (if env
        == "All"@ {
        "*"@
    } else {
        env
    })
}

/// Path, below the API's root, of one variable of a group.
pub open spec fn group_variable_path(group: Seq<char>, name: Seq<char>) -> Seq<char> {
    "groups/"@ + group + "/variables/"@ + name
}

/// Path, below the API's root, of one page of a project's variables.
pub open spec fn project_list_path(project: Seq<char>, page: nat, per_page: nat) -> Seq<char> {
    "projects/"@ + project + "/variables?page="@ + decimal(page) + "&per_page="@ + decimal(
        per_page,
    )
}

/// The requests by which a version of the GitLab API reads variables.
pub trait GitLabApi: Sized {
    /// Returns the description of the API of the instance at `gitlab_api_url`
    fn new(gitlab_api_url: String, gitlab_token: String) -> Self;

    /// The request for a variable of a specific GitLab project
    fn get_from_project(&self, project: &str, name: &str, env: &str) -> ApiRequest;

    /// The request for a variable of a specific GitLab group
    fn get_from_group(&self, group: &str, name: &str) -> ApiRequest;

    /// The request for one page of the variables of a specific GitLab project
    fn list_from_project(&self, project: &str, page: usize, per_page: usize) -> ApiRequest;
}

/// Version 4 of the GitLab API
#[derive(Debug)]
pub struct GitLabApiV4 {
    url: String,
    token: String,
}

/// What tells one [`GitLabApiV4`] from another: the address of the API's
/// root, and the token that its requests carry.
pub struct GitLabApiV4View {
    pub url: Seq<char>,
    pub token: Seq<char>,
}

impl View for GitLabApiV4 {
    type V = GitLabApiV4View;

    closed spec fn view(&self) -> GitLabApiV4View {
        GitLabApiV4View { url: self.url@, token: self.token@ }
    }
}

impl Clone for GitLabApiV4 {
    fn clone(&self) -> (copy: Self)
        ensures
            copy == *self,
    {
        GitLabApiV4 { url: self.url.clone(), token: self.token.clone() }
    }
}

impl GitLabApi for GitLabApiV4 {
    fn new(url: String, token: String) -> (api: Self)
        ensures
            api@.url == url@ + "/api/v4"@,
            api@.token == token@,
    {
        let mut root = url;
        root.append("/api/v4");
        GitLabApiV4 { url: root, token }
    }

    fn get_from_project(&self, project: &str, name: &str, env: &str) -> (request: ApiRequest)
        ensures
            request@.url == self@.url + "/"@ + project_variable_path(project@, name@, env@),
            request@.token == self@.token,
    {
        let all = String::from_str("All");
        let mut path = String::from_str("projects/");
        path.append(project);
        path.append("/variables/");
        path.append(name);
        path.append("?filter[environment_scope]=");
        if String::from_str(env) == all {
            path.append("*");
        } else {
            path.append(env);
        }
        self.get(path.as_str())
    }

    fn get_from_group(&self, group: &str, name: &str) -> (request: ApiRequest)
        ensures
            request@.url == self@.url + "/"@ + group_variable_path(group@, name@),
            request@.token == self@.token,
    {
        let mut path = String::from_str("groups/");
        path.append(group);
        path.append("/variables/");
        path.append(name);
        self.get(path.as_str())
    }

    fn list_from_project(
        &self,
        project: &str,
        page: usize,
        per_page: usize,
    ) -> (request: ApiRequest)
        ensures
            request@.url == self@.url + "/"@ + project_list_path(
                project@,
                page as nat,
                per_page as nat,
            ),
            request@.token == self@.token,
    {
        let mut path = String::from_str("projects/");
        path.append(project);
        path.append("/variables?page=");
        path.append(usize_to_string(page).as_str());
        path.append("&per_page=");
        path.append(usize_to_string(per_page).as_str());
        self.get(path.as_str())
    }
}

impl GitLabApiV4 {
    /// The request for the resource at `endpoint`, a path below the API's
    /// root.
    fn get(&self, endpoint: &str) -> (request: ApiRequest)
        ensures
            request@.url == self@.url + "/"@ + endpoint@,
            request@.token == self@.token,
    {
        let mut url = self.url.clone();
        url.append("/");
        url.append(endpoint);
        ApiRequest { url, token: self.token.clone() }
    }
}

/// How the request for one variable ended.
#[derive(Debug, PartialEq)]
pub enum Lookup {
    /// GitLab sent the variable.
    Found(GitLabVariable),
    /// GitLab has no such variable in the scope that was asked for.
    NotFound(AppError),
    /// The request failed otherwise: GitLab was not reached, refused, or
    /// sent what could not be read.
    Failed(AppError),
}

/// A [`Lookup`] with its texts as sequences of characters.
pub enum LookupView {
    Found(VariableView),
    NotFound(AppErrorView),
    Failed(AppErrorView),
}

impl View for Lookup {
    type V = LookupView;

    open spec fn view(&self) -> LookupView {
        match self {
            Lookup::Found(variable) => LookupView::Found(variable@),
            Lookup::NotFound(e) => LookupView::NotFound(e@),
            Lookup::Failed(e) => LookupView::Failed(e@),
        }
    }
}

/// Message of the error for a variable that GitLab sent without a key.
pub const MISSING_KEY: &'static str = "Variable without key in GitLab response";

impl Lookup {
    /// The outcome for a variable that GitLab sent: the variable as the
    /// commands know it. What GitLab sent without a key is no variable, and
    /// the outcome is a failure.
    pub fn found(variable: &GitLabVariable) -> (lookup: Lookup)
        ensures
            lookup@ == if variable@.well_formed() {
                LookupView::Found(variable@.from_response())
            } else {
                LookupView::Failed(AppErrorView::Api(MISSING_KEY@))
            },
    {
        if variable.is_well_formed() {
            Lookup::Found(variable.clone_from_response())
        } else {
            Lookup::Failed(AppError::Api(String::from_str(MISSING_KEY)))
        }
    }

    /// The outcome for a request that failed with `message`, under the status
    /// code of GitLab's answer where there was an answer.
    pub fn failure(status: Option<u16>, message: String) -> (lookup: Lookup)
        ensures
            lookup@ == if status == Some(NOT_FOUND) {
                LookupView::NotFound(AppErrorView::Api(message@))
            } else {
                LookupView::Failed(AppErrorView::Api(message@))
            },
    {
        match status {
            Some(code) => {
                if code == NOT_FOUND {
                    Lookup::NotFound(AppError::Api(message))
                } else {
                    Lookup::Failed(AppError::Api(message))
                }
            },
            None => Lookup::Failed(AppError::Api(message)),
        }
    }
}

/// Message of the error for a numeric header that is missing or does not
/// hold a number.
pub open spec fn invalid_header_message(header: Seq<char>) -> Seq<char> {
    "Header "@ + header + " not valid in GitLab response"@
}

/// What a numeric header of a response says: its number where it holds one,
/// an error where it is missing or holds anything else.
pub open spec fn pagination_header(value: Option<Seq<char>>, header: Seq<char>) -> Result<
    usize,
    AppErrorView,
> {
    match value {
        Some(text) => match parse_usize_spec(text) {
            Some(n) => Ok(n),
            None => Err(AppErrorView::Api(invalid_header_message(header))),
        },
        None => Err(AppErrorView::Api(invalid_header_message(header))),
    }
}

/// Returns the error for the numeric header `header` where a response does
/// not have it or has no number in it.
pub fn invalid_header(header: &str) -> (error: AppError)
    ensures
        error@ == AppErrorView::Api(invalid_header_message(header@)),
{
    let mut message = String::from_str("Header ");
    message.append(header);
    message.append(" not valid in GitLab response");
    AppError::Api(message)
}

/// Reads the numeric header named `header` of a response of GitLab, of which
/// `value` is the text, if the response has that header at all.
pub fn get_pagination_header(value: Option<&str>, header: &str) -> (total: Result<usize, AppError>)
    ensures
        match total {
            Ok(n) => pagination_header(value.deep_view(), header@) == Ok::<usize, AppErrorView>(n),
            Err(e) => pagination_header(value.deep_view(), header@) == Err::<usize, AppErrorView>(
                e@,
            ),
        },
{
    let number = match value {
        Some(text) => parse_usize(text),
        None => None,
    };
    match number {
        Some(n) => Ok(n),
        None => Err(invalid_header(header)),
    }
}

/// One page of variables as GitLab sent it, with the number of variables that
/// the project has in all, or the error that the request ended with.
pub type Page = Result<(Vec<GitLabVariable>, usize), AppError>;

/// A [`Page`] with its texts as sequences of characters.
pub type PageView = Result<(Seq<VariableView>, usize), AppErrorView>;

/// The view of a page.
pub open spec fn page_view(page: Page) -> PageView {
    match page {
        Ok((items, total)) => Ok((items.deep_view(), total)),
        Err(e) => Err(e@),
    }
}

/// The views of some pages, in their order.
pub open spec fn pages_view(pages: Seq<Page>) -> Seq<PageView> {
    Seq::new(pages.len(), |i: int| page_view(pages[i]))
}

/// Name of the header in which GitLab reports how many variables a project
/// has.
pub const TOTAL_HEADER: &'static str = "x-total";

/// The variables of a response, each as the commands know it.
pub open spec fn from_response(items: Seq<VariableView>) -> Seq<VariableView> {
    items.map_values(|variable: VariableView| variable.from_response())
}

/// Whether each of the variables has a key.
pub open spec fn all_well_formed(items: Seq<VariableView>) -> bool {
    forall|i: int| 0 <= i < items.len() ==> (#[trigger] items[i]).well_formed()
}

/// The page that a response to a request for a page amounts to. The header
/// that reports the number of variables is read first: without it the page
/// is an error, whatever the body holds. Then comes the body: a body that
/// could not be read, for the reason that `body` then gives, fails the page
/// as any request that failed does, and so does one that holds a variable
/// without a key.
pub open spec fn page_of_response(
    total: Option<Seq<char>>,
    body: Result<Seq<VariableView>, Seq<char>>,
) -> PageView {
    match pagination_header(total, TOTAL_HEADER@) {
        Err(e) => Err(e),
        Ok(n) => match body {
            Err(message) => Err(AppErrorView::Api(message)),
            Ok(items) => if all_well_formed(items) {
                Ok((from_response(items), n))
            } else {
                Err(AppErrorView::Api(MISSING_KEY@))
            },
        },
    }
}

/// Whether each of the variables has a key.
fn have_keys(items: &Vec<GitLabVariable>) -> (all: bool)
    ensures
        all == all_well_formed(items.deep_view()),
{
    let mut i: usize = 0;
    while i < items.len()
        invariant
            i <= items.len(),
            forall|j: int| 0 <= j < i ==> (#[trigger] items.deep_view()[j]).well_formed(),
        decreases items.len() - i,
    {
        if !items[i].is_well_formed() {
            proof {
                assert(items.deep_view()[i as int] == items[i as int]@);
            }
            return false;
        }
        proof {
            assert(items.deep_view()[i as int] == items[i as int]@);
        }
        i = i + 1;
    }
    true
}

/// Copies the variables of a response, each as the commands know it.
fn variables_from_response(items: &Vec<GitLabVariable>) -> (variables: Vec<GitLabVariable>)
    ensures
        variables.deep_view() == from_response(items.deep_view()),
{
    let mut variables: Vec<GitLabVariable> = Vec::new();
    let mut i: usize = 0;
    while i < items.len()
        invariant
            i <= items.len(),
            variables.len() == i,
            forall|j: int| 0 <= j < i ==> (#[trigger] variables[j])@ == items[j]@.from_response(),
        decreases items.len() - i,
    {
        variables.push(items[i].clone_from_response());
        i = i + 1;
    }
    proof {
        assert(variables.deep_view() =~= from_response(items.deep_view()));
    }
    variables
}

/// Returns the page of a request that failed with `message`: GitLab was not
/// reached, or it refused the request.
pub fn page_failure(message: String) -> (page: Page)
    ensures
        page_view(page) == Err::<(Seq<VariableView>, usize), AppErrorView>(
            AppErrorView::Api(message@),
        ),
{
    Err(AppError::Api(message))
}

/// Returns the page that a response of GitLab amounts to: `total` is the
/// text of its header `x-total`, if it has that header, and `body` the
/// variables that its body holds, or the reason for which it could not be
/// read.
pub fn page_from_response(
    total: Option<&str>,
    body: Result<Vec<GitLabVariable>, String>,
) -> (page: Page)
    ensures
        page_view(page) == page_of_response(
            total.deep_view(),
            match body {
                Ok(items) => Ok(items.deep_view()),
                Err(message) => Err(message@),
            },
        ),
{
    let number = get_pagination_header(total, TOTAL_HEADER)?;
    match body {
        Err(message) => page_failure(message),
        Ok(items) => {
            if have_keys(&items) {
                Ok((variables_from_response(&items), number))
            } else {
                Err(AppError::Api(String::from_str(MISSING_KEY)))
            }
        },
    }
}

} // verus!
