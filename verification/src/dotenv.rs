//! The `dotenv` command: reads every variable of a project, page by page,
//! keeps those of one environment, writes the variables of type file to a
//! folder and emits the statements that export them all in a shell.

use crate::action::{
    reject_event, unexpected_event, Action, ActionView, Event, EventView, FileFailure,
    FileFailureView,
};
use crate::api_client::api_client;
use crate::app_error::{AppError, AppErrorView};
use crate::args::{
    environment_or_default, extract_environment, extract_token, extract_url, numeric_or_default,
    numeric_param_from_args, InstanceArgs, InstanceArgsView,
};
use crate::encoding::{encode, url_encoded};
use crate::export::{
    dotenv_content, dotenv_text, export_statements, files_to_create, generate_commands,
    get_files_to_create,
};
use crate::gitlab_api::{
    invalid_header, invalid_header_message, page_view, pages_view, project_list_path, ApiRequest,
    ApiRequestView, GitLabApi, GitLabProject, GitLabVariable, Page, PageView, VariableView,
    TOTAL_HEADER,
};
use crate::pagination::{
    additional_pages, append_variables, first_failure, items_of, join_pages, joined_pages,
    lemma_first_failure_stays, lemma_order_of_pages_is_free, lemma_pages_in_order_hold_a_prefix,
    lemma_pages_needed_rounds_up, pages_in_order, pages_needed, source_answer, source_page,
    source_page_prefix,
};
use crate::projection::{
    filter_by_environment, lemma_filter_of_a_permutation, variables_in_scope,
};
use crate::shell_types::ShellType;
use crate::Performable;
use vstd::prelude::*;
use vstd::string::*;

verus! {

/// The most variables that GitLab sends on one page.
pub const MAX_PER_PAGE: usize = 100;

/// Number of variables asked for per page where the argument names none.
pub const DEFAULT_PER_PAGE: usize = 50;

/// Arguments for `dotenv` command
#[derive(Debug, PartialEq)]
pub struct DotEnvCommand {
    /// Project ID or URL-encoded NAMESPACE/PROJECT_NAME
    pub gitlab_project: GitLabProject,
    /// Name of GitLab CI/CD environment
    pub environment: String,
    /// Write dotenv to a file instead of stdout
    pub output_file: Option<String>,
    /// Generate dotenv for this shell type.
    pub shell: ShellType,
    /// Path where variables with type "File" will be stored.
    pub folder: String,
    /// Number of items to list per page
    pub per_page: usize,
    /// Export group variables if project belongs to a group
    pub with_group_vars: bool,
    /// Parallelism
    pub parallel: usize,
    /// GitLab instance URL
    pub url: String,
    /// Token to connect to GitLab instance API
    pub token: String,
}

/// A [`DotEnvCommand`] with its texts as sequences of characters.
pub struct DotEnvCommandView {
    pub project: Seq<char>,
    pub variables: Seq<VariableView>,
    pub environment: Seq<char>,
    pub output_file: Option<Seq<char>>,
    pub shell: ShellType,
    pub folder: Seq<char>,
    pub per_page: usize,
    pub with_group_vars: bool,
    pub parallel: usize,
    pub url: Seq<char>,
    pub token: Seq<char>,
}

impl View for DotEnvCommand {
    type V = DotEnvCommandView;

    open spec fn view(&self) -> DotEnvCommandView {
        DotEnvCommandView {
            project: self.gitlab_project.name@,
            variables: self.gitlab_project.variables.deep_view(),
            environment: self.environment@,
            output_file: self.output_file.deep_view(),
            shell: self.shell,
            folder: self.folder@,
            per_page: self.per_page,
            with_group_vars: self.with_group_vars,
            parallel: self.parallel,
            url: self.url@,
            token: self.token@,
        }
    }
}

impl Clone for DotEnvCommand {
    fn clone(&self) -> (copy: Self)
        ensures
            copy@ == self@,
    {
        DotEnvCommand {
            gitlab_project: self.gitlab_project.clone(),
            environment: self.environment.clone(),
            output_file: self.output_file.clone(),
            shell: self.shell,
            folder: self.folder.clone(),
            per_page: self.per_page,
            with_group_vars: self.with_group_vars,
            parallel: self.parallel,
            url: self.url.clone(),
            token: self.token.clone(),
        }
    }
}

impl DotEnvCommandView {
    /// Whether the command can be carried out: it asks for at least one and
    /// at most [`MAX_PER_PAGE`] variables per page.
    pub open spec fn valid(self) -> bool {
        1 <= self.per_page <= MAX_PER_PAGE
    }
}

/// What the command line says of a `dotenv` command.
#[derive(Debug, PartialEq)]
pub struct DotEnvArgs {
    /// The project: its ID or its path
    pub gitlab_project: String,
    /// Value of `--environment`
    pub environment: Option<String>,
    /// Value of `--output`
    pub output: Option<String>,
    /// Value of `--shell`
    pub shell: Option<String>,
    /// Value of `--folder`
    pub folder: Option<String>,
    /// Value of `--per-page`
    pub per_page: Option<String>,
    /// Whether `--with-group-vars` is given
    pub with_group_vars: bool,
    /// Value of `--parallel`
    pub parallel: Option<String>,
    /// The GitLab instance
    pub instance: InstanceArgs,
}

/// [`DotEnvArgs`] with its texts as sequences of characters.
pub struct DotEnvArgsView {
    pub gitlab_project: Seq<char>,
    pub environment: Option<Seq<char>>,
    pub output: Option<Seq<char>>,
    pub shell: Option<Seq<char>>,
    pub folder: Option<Seq<char>>,
    pub per_page: Option<Seq<char>>,
    pub with_group_vars: bool,
    pub parallel: Option<Seq<char>>,
    pub instance: InstanceArgsView,
}

impl View for DotEnvArgs {
    type V = DotEnvArgsView;

    open spec fn view(&self) -> DotEnvArgsView {
        DotEnvArgsView {
            gitlab_project: self.gitlab_project@,
            environment: self.environment.deep_view(),
            output: self.output.deep_view(),
            shell: self.shell.deep_view(),
            folder: self.folder.deep_view(),
            per_page: self.per_page.deep_view(),
            with_group_vars: self.with_group_vars,
            parallel: self.parallel.deep_view(),
            instance: self.instance@,
        }
    }
}

impl DotEnvArgsView {
    /// The command that the arguments stand for, on a machine that runs
    /// `cpus` requests at a time where the arguments name no other number.
    pub open spec fn command(self, cpus: usize) -> DotEnvCommandView {
        DotEnvCommandView {
            project: url_encoded(self.gitlab_project),
            variables: Seq::empty(),
            environment: environment_or_default(self.environment),
            output_file: self.output,
            shell: if self.shell == Some("fish"@) {
                ShellType::Fish
            } else {
                ShellType::Posix
            },
            folder: match self.folder {
                Some(folder) => folder,
                None => ".env."@ + environment_or_default(self.environment),
            },
            per_page: numeric_or_default(self.per_page, DEFAULT_PER_PAGE),
            with_group_vars: self.with_group_vars,
            parallel: numeric_or_default(self.parallel, cpus),
            url: self.instance.url(),
            token: self.instance.token(),
        }
    }
}

/// Calls `num_cpus::get`. Trusted: the crate documents that the number of
/// processing units that it reports is at least 1. Which number it is
/// depends on the machine.
#[verifier::external_body]
fn available_cpus() -> (cpus: usize)
    ensures
        cpus >= 1,
{
    num_cpus::get()
}

impl DotEnvCommand {
    /// The command that the arguments stand for, with `cpus` requests at a
    /// time where the arguments name no other number.
    pub fn with_cpus(args: &DotEnvArgs, cpus: usize) -> (cmd: DotEnvCommand)
        ensures
            cmd@ == args@.command(cpus),
    {
        let fish = String::from_str("fish");
        let shell = match &args.shell {
            Some(name) => if *name == fish {
                ShellType::Fish
            } else {
                ShellType::Posix
            },
            None => ShellType::Posix,
        };
        let folder = match &args.folder {
            Some(folder) => folder.clone(),
            None => {
                let mut folder = String::from_str(".env.");
                folder.append(extract_environment(&args.environment).as_str());
                folder
            },
        };
        let cmd = DotEnvCommand {
            gitlab_project: GitLabProject {
                name: encode(args.gitlab_project.as_str()),
                variables: Vec::new(),
            },
            environment: extract_environment(&args.environment),
            output_file: args.output.clone(),
            shell,
            folder,
            per_page: numeric_param_from_args(&args.per_page, DEFAULT_PER_PAGE),
            with_group_vars: args.with_group_vars,
            parallel: numeric_param_from_args(&args.parallel, cpus),
            url: extract_url(&args.instance),
            token: extract_token(&args.instance),
        };
        proof {
            assert(cmd.gitlab_project.variables.deep_view() =~= Seq::empty());
        }
        cmd
    }

    /// Whether the command can be carried out.
    pub fn is_valid(&self) -> (valid: bool)
        ensures
            valid == self@.valid(),
    {
        1 <= self.per_page && self.per_page <= MAX_PER_PAGE
    }
}

impl<'a> From<&'a DotEnvArgs> for DotEnvCommand {
    /// The command that the arguments stand for. Where they do not say how
    /// many requests may run at a time, it is the number of processing units
    /// of this machine.
    fn from(args: &'a DotEnvArgs) -> (cmd: DotEnvCommand)
        ensures
            exists|cpus: usize| cpus >= 1 && cmd@ == #[trigger] args@.command(cpus),
    {
        DotEnvCommand::with_cpus(args, available_cpus())
    }
}

impl<'a> vstd::std_specs::convert::FromSpecImpl<&'a DotEnvArgs> for DotEnvCommand {
    open spec fn obeys_from_spec() -> bool {
        false
    }

    open spec fn from_spec(args: &'a DotEnvArgs) -> DotEnvCommand {
        arbitrary()
    }
}

/// GitLab requests configuration
#[derive(Debug, PartialEq)]
pub struct RequestConfig {
    /// GitLab instance URL
    pub url: String,
    /// Token to connect to GitLab instance API
    pub token: String,
    /// Project whose variables are listed
    pub gitlab_project: String,
    /// Page to request
    pub page: usize,
    /// Number of items to list per page
    pub per_page: usize,
}

/// A [`RequestConfig`] with its texts as sequences of characters.
pub struct RequestConfigView {
    pub url: Seq<char>,
    pub token: Seq<char>,
    pub gitlab_project: Seq<char>,
    pub page: usize,
    pub per_page: usize,
}

impl View for RequestConfig {
    type V = RequestConfigView;

    open spec fn view(&self) -> RequestConfigView {
        RequestConfigView {
            url: self.url@,
            token: self.token@,
            gitlab_project: self.gitlab_project@,
            page: self.page,
            per_page: self.per_page,
        }
    }
}

impl RequestConfigView {
    /// The request for this page of the project's variables.
    pub open spec fn request(self) -> ApiRequestView {
        ApiRequestView {
            url: self.url + "/api/v4"@ + "/"@ + project_list_path(
                self.gitlab_project,
                self.page as nat,
                self.per_page as nat,
            ),
            token: self.token,
        }
    }

    /// The same configuration for another page.
    pub open spec fn at_page(self, page: usize) -> RequestConfigView {
        RequestConfigView { page, ..self }
    }

    /// Whether GitLab can serve the request: pages are counted from 1, and
    /// a page holds at least one and at most [`MAX_PER_PAGE`] variables.
    pub open spec fn valid(self) -> bool {
        1 <= self.page && 1 <= self.per_page <= MAX_PER_PAGE
    }
}

impl DotEnvCommandView {
    /// The configuration of the request for one page of the command's
    /// project.
    pub open spec fn request_config(self, page: usize) -> RequestConfigView {
        RequestConfigView {
            url: self.url,
            token: self.token,
            gitlab_project: self.project,
            page,
            per_page: self.per_page,
        }
    }
}

impl Clone for RequestConfig {
    fn clone(&self) -> (copy: Self)
        ensures
            copy == *self,
    {
        RequestConfig {
            url: self.url.clone(),
            token: self.token.clone(),
            gitlab_project: self.gitlab_project.clone(),
            page: self.page,
            per_page: self.per_page,
        }
    }
}

impl RequestConfig {
    /// The configuration of the request for page `page` of the project of
    /// `cmd`.
    pub fn from(cmd: &DotEnvCommand, page: usize) -> (request: Self)
        ensures
            request@ == cmd@.request_config(page),
    {
        RequestConfig {
            url: cmd.url.clone(),
            token: cmd.token.clone(),
            gitlab_project: cmd.gitlab_project.name.clone(),
            page,
            per_page: cmd.per_page,
        }
    }
}

/// Returns the request for the page of variables that `request` configures.
pub fn list_from_api(request: RequestConfig) -> (api_request: ApiRequest)
    ensures
        api_request@ == request@.request(),
{
    api_client(request.url.as_str(), request.token.as_str()).list_from_project(
        request.gitlab_project.as_str(),
        request.page,
        request.per_page,
    )
}

/// The requests for the pages that follow the first one: `num_requests`
/// requests, for the pages from the second on.
pub open spec fn remaining_requests(request: RequestConfigView, num_requests: usize) -> Seq<
    ApiRequestView,
> {
    Seq::new(num_requests as nat, |i: int| request.at_page((i + 2) as usize).request())
}

/// Returns the requests for the variables that the first request could not
/// bring: one for each of the `num_requests` pages from the second on.
pub fn remaining_from_api(
    request: RequestConfig,
    num_requests: usize,
) -> (requests: Vec<ApiRequest>)
    requires
        num_requests < usize::MAX,
    ensures
        requests.deep_view() == remaining_requests(request@, num_requests),
{
    let mut requests: Vec<ApiRequest> = Vec::new();
    let mut i: usize = 0;
    while i < num_requests
        invariant
            i <= num_requests < usize::MAX,
            requests.deep_view() == remaining_requests(request@, i),
        decreases num_requests - i,
    {
        let mut r = request.clone();
        r.page = i + 2;
        let ghost before = requests.deep_view();
        requests.push(list_from_api(r));
        proof {
            assert(requests.deep_view() =~= before.push(
                request@.at_page((i + 2) as usize).request(),
            ));
            assert(requests.deep_view() =~= remaining_requests(request@, (i + 1) as usize));
        }
        i = i + 1;
    }
    requests
}

/// How far a `dotenv` command has come.
#[derive(Debug, PartialEq)]
pub enum DotEnvState {
    /// Nothing was done yet.
    Start,
    /// The first page was asked for.
    FirstPage,
    /// The first page is here, with these variables, and the pages that
    /// follow it were asked for: as many as the number says.
    Remaining(Vec<GitLabVariable>, usize),
    /// The variables of the environment are here, and the files of these
    /// variables are being written.
    Files(Vec<GitLabVariable>),
    /// The files are written, and these statements are being written to the
    /// output file.
    Output(Vec<String>),
    /// The statements are being printed.
    Printing,
    /// The command has ended.
    Done,
}

/// A [`DotEnvState`] with its texts as sequences of characters.
pub enum DotEnvStateView {
    Start,
    FirstPage,
    Remaining(Seq<VariableView>, usize),
    Files(Seq<VariableView>),
    Output(Seq<Seq<char>>),
    Printing,
    Done,
}

impl View for DotEnvState {
    type V = DotEnvStateView;

    open spec fn view(&self) -> DotEnvStateView {
        match self {
            DotEnvState::Start => DotEnvStateView::Start,
            DotEnvState::FirstPage => DotEnvStateView::FirstPage,
            DotEnvState::Remaining(first, expected) => DotEnvStateView::Remaining(
                first.deep_view(),
                *expected,
            ),
            DotEnvState::Files(variables) => DotEnvStateView::Files(variables.deep_view()),
            DotEnvState::Output(statements) => DotEnvStateView::Output(statements.deep_view()),
            DotEnvState::Printing => DotEnvStateView::Printing,
            DotEnvState::Done => DotEnvStateView::Done,
        }
    }
}

impl DotEnvStateView {
    /// How far the state is from the start. The variables are read in the
    /// stages up to 2, the files are written in stage 3, and the statements
    /// are emitted in the stages 4 and 5.
    pub open spec fn stage(self) -> nat {
        match self {
            DotEnvStateView::Start => 0,
            DotEnvStateView::FirstPage => 1,
            DotEnvStateView::Remaining(_, _) => 2,
            DotEnvStateView::Files(_) => 3,
            DotEnvStateView::Output(_) => 4,
            DotEnvStateView::Printing => 5,
            DotEnvStateView::Done => 6,
        }
    }
}

/// Message of the error for a command that asks for no variables per page
/// or for more than GitLab sends.
pub const INVALID_COMMAND: &'static str = "Please set a number of items per page from 1 to 100";

/// Message of the error for a command that has more pages to ask for than
/// the first one and lets no request run.
pub const NO_PARALLEL_REQUEST: &'static str =
    "Please set a number of parallel requests of at least 1";

/// Message of the error for a fan-out that was answered with another number
/// of pages than it asked for.
pub const PAGES_MISSING: &'static str = "GitLab API requests did not all come to an end";

/// Message of the error for a folder that could not be created.
pub open spec fn folder_message(folder: Seq<char>, cause: Seq<char>) -> Seq<char> {
    "Folder "@ + folder + " could not be created. Error: "@ + cause
}

/// Message of the error for files that could not all be created.
pub open spec fn files_message(cause: Seq<char>) -> Seq<char> {
    "Some files could not be created. Error: "@ + cause
}

impl DotEnvCommandView {
    /// The step that ends a command which cannot be carried out.
    pub open spec fn refused() -> (DotEnvStateView, ActionView) {
        (
            DotEnvStateView::Done,
            ActionView::Exit(Err(AppErrorView::InvalidInput(INVALID_COMMAND@))),
        )
    }

    /// The step from the moment at which every variable of the project is
    /// here: the variables of the command's environment are kept, and the
    /// files of those of type file are to be created.
    pub open spec fn fetched(self, all: Seq<VariableView>) -> (DotEnvStateView, ActionView) {
        let variables = variables_in_scope(all, self.environment);
        (
            DotEnvStateView::Files(variables),
            ActionView::CreateFiles(self.folder, files_to_create(self.folder, variables)),
        )
    }

    /// The number of pages still to ask for after a first page of
    /// `fetched` variables, where the project has `total`.
    pub open spec fn pages_to_follow(self, fetched: nat, total: nat) -> nat {
        if fetched >= total {
            0
        } else {
            pages_needed((total - fetched) as nat, self.per_page as nat)
        }
    }

    /// The number of requests by which a project of `total` variables is
    /// read where the first page brings `fetched` of them: the request for
    /// the first page, and one for each page to follow.
    pub open spec fn requests_in_all(self, fetched: nat, total: nat) -> nat {
        1 + self.pages_to_follow(fetched, total)
    }

    /// The step on the answer to the request for the first page. A page
    /// that holds as many variables as there are in all ends the reading.
    /// Else the pages that hold the rest are asked for, all at once; a
    /// command that lets no request run cannot ask for them and ends with an
    /// error.
    pub open spec fn after_first_page(self, page: PageView) -> (DotEnvStateView, ActionView) {
        match page {
            Err(e) => (DotEnvStateView::Done, ActionView::Exit(Err(e))),
            Ok((items, total)) => {
                let pages = self.pages_to_follow(items.len(), total as nat);
                if pages == 0 {
                    self.fetched(items)
                } else if self.parallel == 0 {
                    (
                        DotEnvStateView::Done,
                        ActionView::Exit(Err(AppErrorView::InvalidInput(NO_PARALLEL_REQUEST@))),
                    )
                } else if pages >= usize::MAX {
                    (
                        DotEnvStateView::Done,
                        ActionView::Exit(
                            Err(AppErrorView::Api(invalid_header_message(TOTAL_HEADER@))),
                        ),
                    )
                } else {
                    (
                        DotEnvStateView::Remaining(items, pages as usize),
                        ActionView::ListAll(
                            remaining_requests(self.request_config(2), pages as usize),
                            self.parallel,
                        ),
                    )
                }
            },
        }
    }

    /// The step on the answers to the requests for the pages after the
    /// first. Every request must have ended; one that failed fails the
    /// command.
    pub open spec fn after_remaining(
        self,
        first: Seq<VariableView>,
        expected: usize,
        pages: Seq<PageView>,
    ) -> (DotEnvStateView, ActionView) {
        if pages.len() != expected {
            (DotEnvStateView::Done, ActionView::Exit(Err(AppErrorView::Cli(PAGES_MISSING@))))
        } else {
            match joined_pages(pages) {
                Err(e) => (DotEnvStateView::Done, ActionView::Exit(Err(e))),
                Ok(rest) => self.fetched(first + rest),
            }
        }
    }

    /// The step once the files were, or were not, written. With the files
    /// in place the statements go to the output file, or to the standard
    /// output where the command names no file.
    pub open spec fn after_files(
        self,
        variables: Seq<VariableView>,
        outcome: Result<(), FileFailureView>,
    ) -> (DotEnvStateView, ActionView) {
        match outcome {
            Err(FileFailureView::Folder(e)) => (
                DotEnvStateView::Done,
                ActionView::Exit(
                    Err(AppErrorView::InvalidInput(folder_message(self.folder, e.message()))),
                ),
            ),
            Err(FileFailureView::File(e)) => (
                DotEnvStateView::Done,
                ActionView::Exit(Err(AppErrorView::Cli(files_message(e.text())))),
            ),
            Ok(_) => {
                let statements = export_statements(self.shell, variables, self.folder);
                match self.output_file {
                    Some(file) => (
                        DotEnvStateView::Output(statements),
                        ActionView::WriteOutput(file, dotenv_text(statements)),
                    ),
                    None => (DotEnvStateView::Printing, ActionView::Print(statements)),
                }
            },
        }
    }

    /// The step while the variables are read: from the start to the moment
    /// at which they are all here. A command that is not valid reads
    /// nothing.
    pub open spec fn list_step(self, state: DotEnvStateView, event: EventView) -> (
        DotEnvStateView,
        ActionView,
    ) {
        if !self.valid() {
            Self::refused()
        } else {
            match (state, event) {
                (DotEnvStateView::Start, EventView::Started) => (
                    DotEnvStateView::FirstPage,
                    ActionView::List(self.request_config(1).request()),
                ),
                (DotEnvStateView::FirstPage, EventView::Page(page)) => self.after_first_page(page),
                (
                    DotEnvStateView::Remaining(first, expected),
                    EventView::Pages(pages),
                ) => self.after_remaining(first, expected, pages),
                _ => (DotEnvStateView::Done, unexpected_event()),
            }
        }
    }

    /// One step of the command: the state and the action that follow on
    /// `event` in `state`.
    ///
    /// The variables are read first, then the files are written, then the
    /// statements are emitted, and a stage begins only when the one before
    /// it succeeded. Statements that cannot be written to the output file
    /// are printed instead. A command that is not valid, and an event that
    /// does not answer the last action, end the command with an error.
    pub open spec fn step(self, state: DotEnvStateView, event: EventView) -> (
        DotEnvStateView,
        ActionView,
    ) {
        if !self.valid() {
            Self::refused()
        } else {
            match (state, event) {
                (DotEnvStateView::Files(variables), EventView::Files(outcome)) => self.after_files(
                    variables,
                    outcome,
                ),
                (DotEnvStateView::Output(statements), EventView::Output(outcome)) => match outcome {
                    Ok(_) => (DotEnvStateView::Done, ActionView::Exit(Ok(()))),
                    Err(_) => (DotEnvStateView::Printing, ActionView::Print(statements)),
                },
                (DotEnvStateView::Printing, EventView::Printed) => (
                    DotEnvStateView::Done,
                    ActionView::Exit(Ok(())),
                ),
                (DotEnvStateView::Start, _) => self.list_step(state, event),
                (DotEnvStateView::FirstPage, _) => self.list_step(state, event),
                (DotEnvStateView::Remaining(_, _), _) => self.list_step(state, event),
                _ => (DotEnvStateView::Done, unexpected_event()),
            }
        }
    }
}

/// Returns the step that ends a command which cannot be carried out.
fn refuse() -> (next: (DotEnvState, Action))
    ensures
        (next.0@, next.1@) == DotEnvCommandView::refused(),
{
    (
        DotEnvState::Done,
        Action::Exit(Err(AppError::InvalidInput(String::from_str(INVALID_COMMAND)))),
    )
}

/// Returns the step from the moment at which every variable of the project
/// is here.
fn files_step(cmd: &DotEnvCommand, all: Vec<GitLabVariable>) -> (next: (DotEnvState, Action))
    ensures
        (next.0@, next.1@) == cmd@.fetched(all.deep_view()),
{
    let variables = filter_by_environment(all.as_slice(), cmd.environment.as_str());
    let files = get_files_to_create(cmd.folder.as_str(), variables.as_slice());
    (DotEnvState::Files(variables), Action::CreateFiles(cmd.folder.clone(), files))
}

/// Returns the step on the answer to the request for the first page.
fn first_page_step(cmd: &DotEnvCommand, page: Page) -> (next: (DotEnvState, Action))
    requires
        cmd@.valid(),
    ensures
        (next.0@, next.1@) == cmd@.after_first_page(page_view(page)),
{
    match page {
        Err(e) => (DotEnvState::Done, Action::Exit(Err(e))),
        Ok((items, total)) => {
            if items.len() >= total {
                files_step(cmd, items)
            } else {
                let pages = additional_pages(total - items.len(), cmd.per_page);
                if cmd.parallel == 0 {
                    (
                        DotEnvState::Done,
                        Action::Exit(
                            Err(AppError::InvalidInput(String::from_str(NO_PARALLEL_REQUEST))),
                        ),
                    )
                } else if pages == usize::MAX {
                    (DotEnvState::Done, Action::Exit(Err(invalid_header(TOTAL_HEADER))))
                } else {
                    let requests = remaining_from_api(RequestConfig::from(cmd, 2), pages);
                    (
                        DotEnvState::Remaining(items, pages),
                        Action::ListAll(requests, cmd.parallel),
                    )
                }
            }
        },
    }
}

/// Returns the step on the answers to the requests for the pages after the
/// first.
fn remaining_step(
    cmd: &DotEnvCommand,
    first: Vec<GitLabVariable>,
    expected: usize,
    pages: Vec<Page>,
) -> (next: (DotEnvState, Action))
    ensures
        (next.0@, next.1@) == cmd@.after_remaining(
            first.deep_view(),
            expected,
            pages_view(pages@),
        ),
{
    if pages.len() != expected {
        return (
            DotEnvState::Done,
            Action::Exit(Err(AppError::Cli(String::from_str(PAGES_MISSING)))),
        );
    }
    match join_pages(&pages) {
        Err(e) => (DotEnvState::Done, Action::Exit(Err(e))),
        Ok(rest) => {
            let mut all = first;
            append_variables(&mut all, &rest);
            files_step(cmd, all)
        },
    }
}

/// Get list of variables to export in dotenv commands: the steps of a
/// `dotenv` command from its start until every variable of the project is
/// here and those of the command's environment are picked.
pub fn get_list_of_variables(
    cmd: &DotEnvCommand,
    state: DotEnvState,
    event: Event,
) -> (next: (DotEnvState, Action))
    ensures
        (next.0@, next.1@) == cmd@.list_step(state@, event@),
{
    if !cmd.is_valid() {
        return refuse();
    }
    match (state, event) {
        (DotEnvState::Start, Event::Started) => (
            DotEnvState::FirstPage,
            Action::List(list_from_api(RequestConfig::from(cmd, 1))),
        ),
        (DotEnvState::FirstPage, Event::Page(page)) => first_page_step(cmd, page),
        (DotEnvState::Remaining(first, expected), Event::Pages(pages)) => remaining_step(
            cmd,
            first,
            expected,
            pages,
        ),
        _ => (DotEnvState::Done, reject_event()),
    }
}

/// Returns the step once the files were, or were not, written.
fn statements_step(
    cmd: &DotEnvCommand,
    variables: Vec<GitLabVariable>,
    outcome: Result<(), FileFailure>,
) -> (next: (DotEnvState, Action))
    ensures
        (next.0@, next.1@) == cmd@.after_files(
            variables.deep_view(),
            match outcome {
                Ok(_) => Ok(()),
                Err(failure) => Err(failure@),
            },
        ),
{
    match outcome {
        Err(FileFailure::Folder(e)) => {
            let mut message = String::from_str("Folder ");
            message.append(cmd.folder.as_str());
            message.append(" could not be created. Error: ");
            message.append(e.message().as_str());
            (DotEnvState::Done, Action::Exit(Err(AppError::InvalidInput(message))))
        },
        Err(FileFailure::File(e)) => {
            let mut message = String::from_str("Some files could not be created. Error: ");
            message.append(e.to_string().as_str());
            (DotEnvState::Done, Action::Exit(Err(AppError::Cli(message))))
        },
        Ok(_) => {
            let statements = generate_commands(
                cmd.shell,
                variables.as_slice(),
                cmd.folder.as_str(),
            );
            match &cmd.output_file {
                Some(file) => {
                    let text = dotenv_content(&statements);
                    (DotEnvState::Output(statements), Action::WriteOutput(file.clone(), text))
                },
                None => (DotEnvState::Printing, Action::Print(statements)),
            }
        },
    }
}

impl Performable for DotEnvCommand {
    type State = DotEnvState;

    fn initial_state(&self) -> (state: DotEnvState)
        ensures
            state@ == DotEnvStateView::Start,
    {
        DotEnvState::Start
    }

    fn get_action(&self, state: DotEnvState, event: Event) -> (next: (DotEnvState, Action))
        ensures
            (next.0@, next.1@) == self@.step(state@, event@),
    {
        if !self.is_valid() {
            return refuse();
        }
        match (state, event) {
            (DotEnvState::Files(variables), Event::Files(outcome)) => statements_step(
                self,
                variables,
                outcome,
            ),
            (DotEnvState::Output(statements), Event::Output(outcome)) => match outcome {
                Ok(_) => (DotEnvState::Done, Action::Exit(Ok(()))),
                Err(_) => (DotEnvState::Printing, Action::Print(statements)),
            },
            (DotEnvState::Printing, Event::Printed) => (DotEnvState::Done, Action::Exit(Ok(()))),
            (DotEnvState::Start, event) => get_list_of_variables(self, DotEnvState::Start, event),
            (DotEnvState::FirstPage, event) => get_list_of_variables(
                self,
                DotEnvState::FirstPage,
                event,
            ),
            (DotEnvState::Remaining(first, expected), event) => get_list_of_variables(
                self,
                DotEnvState::Remaining(first, expected),
                event,
            ),
            _ => (DotEnvState::Done, reject_event()),
        }
    }
}

/// A project whose variables fit on one page is read with one request: on a
/// first page that holds every variable, as GitLab sends it where there are
/// at most as many variables as a page takes, the command asks for no
/// further page and goes on with exactly the variables of that page.
pub proof fn lemma_one_page_one_request(
    cmd: DotEnvCommandView,
    items: Seq<VariableView>,
    total: usize,
)
    requires
        cmd.valid(),
        total <= cmd.per_page,
        items.len() == total,
    ensures
        cmd.requests_in_all(items.len(), total as nat) == 1,
        cmd.step(DotEnvStateView::Start, EventView::Started).1 is List,
        cmd.step(DotEnvStateView::FirstPage, EventView::Page(Ok((items, total)))) == cmd.fetched(
            items,
        ),
        cmd.fetched(items).1 is CreateFiles,
{
}

/// A project with more variables than fit on one page is read with one
/// request for the first page and, after it, one request for each page that
/// the rest needs: the number of variables beyond the first page, divided by
/// the size of a page and rounded up. The requests are for the pages from
/// the second on, in their order. The command must let at least one of them
/// run at a time.
pub proof fn lemma_requests_for_more_pages(
    cmd: DotEnvCommandView,
    items: Seq<VariableView>,
    total: usize,
)
    requires
        cmd.valid(),
        cmd.parallel >= 1,
        total > cmd.per_page,
        items.len() == cmd.per_page,
    ensures
        ({
            let pages = pages_needed((total - cmd.per_page) as nat, cmd.per_page as nat);
            let next = cmd.step(DotEnvStateView::FirstPage, EventView::Page(Ok((items, total))));
            &&& cmd.requests_in_all(items.len(), total as nat) == 1 + pages
            &&& pages * cmd.per_page >= total - cmd.per_page
            &&& (pages - 1) * cmd.per_page < total - cmd.per_page
            &&& 1 <= pages < usize::MAX
            &&& next.0 == DotEnvStateView::Remaining(items, pages as usize)
            &&& next.1 == ActionView::ListAll(
                remaining_requests(cmd.request_config(2), pages as usize),
                cmd.parallel,
            )
            &&& remaining_requests(cmd.request_config(2), pages as usize).len() == pages
            &&& forall|i: int|
                0 <= i < pages ==> #[trigger] remaining_requests(
                    cmd.request_config(2),
                    pages as usize,
                )[i] == cmd.request_config((i + 2) as usize).request()
            &&& forall|page: usize| 1 <= page ==> (#[trigger] cmd.request_config(page)).valid()
        }),
{
    lemma_pages_needed_rounds_up((total - cmd.per_page) as nat, cmd.per_page as nat);
}

/// A command that lets no request run reads a project that fits on one
/// page, and no other: where the first page leaves variables to ask for, the
/// command ends with an error and asks for nothing more.
pub proof fn lemma_no_fan_out_without_a_worker(
    cmd: DotEnvCommandView,
    items: Seq<VariableView>,
    total: usize,
)
    requires
        cmd.valid(),
        cmd.parallel == 0,
    ensures
        cmd.step(DotEnvStateView::Start, EventView::Started) == (
            DotEnvStateView::FirstPage,
            ActionView::List(cmd.request_config(1).request()),
        ),
        items.len() >= total ==> cmd.step(
            DotEnvStateView::FirstPage,
            EventView::Page(Ok((items, total))),
        ) == cmd.fetched(items),
        items.len() < total ==> cmd.step(
            DotEnvStateView::FirstPage,
            EventView::Page(Ok((items, total))),
        ) == (
            DotEnvStateView::Done,
            ActionView::Exit(Err(AppErrorView::InvalidInput(NO_PARALLEL_REQUEST@))),
        ),
{
    if items.len() < total {
        lemma_pages_needed_rounds_up((total - items.len()) as nat, cmd.per_page as nat);
    }
}

/// Where every page after the first was sent, and the pages hold between
/// them the variables that the first page left, the command goes on with as
/// many variables as the project has: those of the first page, then those of
/// the other pages.
pub proof fn lemma_all_variables_are_collected(
    cmd: DotEnvCommandView,
    first: Seq<VariableView>,
    total: usize,
    pages: Seq<PageView>,
)
    requires
        cmd.valid(),
        first.len() <= total,
        pages.len() < usize::MAX,
        first_failure(pages) is None,
        items_of(pages).len() == total - first.len(),
    ensures
        cmd.step(
            DotEnvStateView::Remaining(first, pages.len() as usize),
            EventView::Pages(pages),
        ) == cmd.fetched(first + items_of(pages)),
        (first + items_of(pages)).len() == total,
{
}

/// From a source that holds no more variables than a page takes the command
/// reads exactly the variables of the source, in their order, with the one
/// request for the first page, however many requests it lets run at a time.
pub proof fn lemma_one_page_is_the_source(cmd: DotEnvCommandView, all: Seq<VariableView>)
    requires
        cmd.valid(),
        all.len() <= cmd.per_page,
    ensures
        source_page(all, 1, cmd.per_page as nat) == all,
        cmd.requests_in_all(all.len(), all.len()) == 1,
        cmd.step(
            DotEnvStateView::FirstPage,
            EventView::Page(source_answer(all, 1, cmd.per_page as nat)),
        ) == cmd.fetched(all),
{
    assert(source_page(all, 1, cmd.per_page as nat) =~= all);
}

/// From a source that holds more variables than a page takes the command
/// collects every variable of the source, none twice and none altered: what
/// it goes on with, after the first page and the pages that follow it, holds
/// the variables of the source, each as often as the source holds it. This
/// is so in whatever order the pages after the first come in; where they
/// come in the order of the pages, the variables stand in the order of the
/// source. The variables that are then kept for the command's environment
/// are those that the source has for it.
pub proof fn lemma_every_variable_is_collected_once(
    cmd: DotEnvCommandView,
    all: Seq<VariableView>,
    pages: Seq<PageView>,
)
    requires
        cmd.valid(),
        cmd.parallel >= 1,
        cmd.per_page < all.len() <= usize::MAX,
        pages.to_multiset() == pages_in_order(
            all,
            cmd.per_page as nat,
            cmd.pages_to_follow(cmd.per_page as nat, all.len()),
        ).to_multiset(),
    ensures
        ({
            let first = source_page(all, 1, cmd.per_page as nat);
            let count = cmd.pages_to_follow(cmd.per_page as nat, all.len());
            let collected = first + items_of(pages);
            &&& first.len() == cmd.per_page
            &&& 1 <= count < usize::MAX
            &&& pages.len() == count
            &&& cmd.step(
                DotEnvStateView::FirstPage,
                EventView::Page(source_answer(all, 1, cmd.per_page as nat)),
            ) == (
                DotEnvStateView::Remaining(first, count as usize),
                ActionView::ListAll(
                    remaining_requests(cmd.request_config(2), count as usize),
                    cmd.parallel,
                ),
            )
            &&& cmd.step(
                DotEnvStateView::Remaining(first, count as usize),
                EventView::Pages(pages),
            ) == cmd.fetched(collected)
            &&& collected.to_multiset() == all.to_multiset()
            &&& collected.len() == all.len()
            &&& pages == pages_in_order(all, cmd.per_page as nat, count) ==> collected == all
            &&& variables_in_scope(collected, cmd.environment).to_multiset()
                == variables_in_scope(all, cmd.environment).to_multiset()
        }),
{
    let size = cmd.per_page as nat;
    let first = source_page(all, 1, size);
    let count = cmd.pages_to_follow(size, all.len());
    let ordered = pages_in_order(all, size, count);
    let collected = first + items_of(pages);
    assert(first =~= all.take(size as int));
    lemma_requests_for_more_pages(cmd, first, all.len() as usize);
    lemma_pages_in_order_hold_a_prefix(all, size, count);
    assert((count + 1) * size == count * size + size) by (nonlinear_arith);
    assert(source_page_prefix(all, size, count + 1) =~= all);
    lemma_order_of_pages_is_free(pages, ordered);
    vstd::seq_lib::lemma_multiset_commutative(first, items_of(pages));
    vstd::seq_lib::lemma_multiset_commutative(first, items_of(ordered));
    vstd::seq_lib::to_multiset_len(collected);
    vstd::seq_lib::to_multiset_len(all);
    lemma_filter_of_a_permutation(collected, all, cmd.environment);
}

/// One page that failed fails the reading, whatever the other pages hold:
/// the command ends with the error of the first page that failed and asks
/// for nothing more.
pub proof fn lemma_failed_page_fails_the_command(
    cmd: DotEnvCommandView,
    first: Seq<VariableView>,
    pages: Seq<PageView>,
    k: int,
)
    requires
        cmd.valid(),
        pages.len() < usize::MAX,
        0 <= k < pages.len(),
        pages[k] is Err,
    ensures
        first_failure(pages) is Some,
        cmd.step(
            DotEnvStateView::Remaining(first, pages.len() as usize),
            EventView::Pages(pages),
        ) == (DotEnvStateView::Done, ActionView::Exit(Err(first_failure(pages)->0))),
{
    assert(first_failure(pages.take(k + 1)) is Some) by {
        assert(pages.take(k + 1).last() == pages[k]);
    }
    lemma_first_failure_stays(pages, k + 1);
}

/// Every step takes the command forward, so that a command ends after six
/// steps at most. The command has ended exactly when there is nothing more
/// to do. Requests are sent only while the variables are read, files are
/// created only when the reading has ended, and statements are emitted only
/// when the files are there.
pub proof fn lemma_stages_come_in_order(
    cmd: DotEnvCommandView,
    state: DotEnvStateView,
    event: EventView,
)
    ensures
        ({
            let next = cmd.step(state, event);
            &&& state !is Done ==> next.0.stage() > state.stage()
            &&& next.0 is Done <==> next.1 is Exit
            &&& next.1 !is Get
            &&& next.1 is List ==> state is Start && next.0 is FirstPage
            &&& next.1 is ListAll ==> state is FirstPage && next.0 is Remaining
            &&& next.1 is CreateFiles ==> (state is FirstPage || state is Remaining)
                && next.0 is Files
            &&& next.1 is WriteOutput ==> state is Files && next.0 is Output
            &&& next.1 is Print ==> (state is Files || state is Output) && next.0 is Printing
        }),
{
}

/// A fan-out is never empty and never without a worker: it holds at least
/// one request, exactly as many as the command then waits for, and at least
/// one of them may run at a time.
pub proof fn lemma_fan_out_can_run(
    cmd: DotEnvCommandView,
    state: DotEnvStateView,
    event: EventView,
)
    ensures
        cmd.step(state, event).1 matches ActionView::ListAll(requests, parallel) ==> {
            &&& requests.len() >= 1
            &&& parallel == cmd.parallel
            &&& parallel >= 1
            &&& cmd.step(state, event).0 matches DotEnvStateView::Remaining(_, expected)
            &&& expected == requests.len()
        },
{
    if cmd.valid() {
        if let (DotEnvStateView::FirstPage, EventView::Page(Ok((items, total)))) = (state, event) {
            if items.len() < total {
                lemma_pages_needed_rounds_up((total - items.len()) as nat, cmd.per_page as nat);
            }
        }
    }
}

/// A page that could not be read, and files that could not be written, end
/// the command with an error: nothing is written or emitted after them. The
/// one failure that the command makes up for is that of the output file.
pub proof fn lemma_failure_ends_the_command(
    cmd: DotEnvCommandView,
    state: DotEnvStateView,
    event: EventView,
)
    requires
        event matches EventView::Page(Err(_)) || event matches EventView::Files(Err(_)),
    ensures
        cmd.step(state, event).0 is Done,
        cmd.step(state, event).1 matches ActionView::Exit(Err(_)),
{
}

/// Statements that could not be written to the output file are printed, the
/// same statements in the same order, and the command ends well.
pub proof fn lemma_statements_are_printed_instead(
    cmd: DotEnvCommandView,
    statements: Seq<Seq<char>>,
    e: AppErrorView,
)
    requires
        cmd.valid(),
    ensures
        cmd.step(DotEnvStateView::Output(statements), EventView::Output(Err(e))) == (
            DotEnvStateView::Printing,
            ActionView::Print(statements),
        ),
        cmd.step(DotEnvStateView::Printing, EventView::Printed) == (
            DotEnvStateView::Done,
            ActionView::Exit(Ok(())),
        ),
{
}

} // verus!
