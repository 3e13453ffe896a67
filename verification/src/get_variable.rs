//! The `get` command: reads one variable of a project or of a group and
//! prints its value.

use crate::action::{reject_event, unexpected_event, Action, ActionView, Event, EventView};
use crate::api_client::{api_client, DEFAULT_ENVIRONMENT};
use crate::app_error::{AppError, AppErrorView};
use crate::args::{
    environment_or_default, extract_environment, extract_token, extract_url, InstanceArgs,
    InstanceArgsView,
};
use crate::encoding::{encode, url_encoded};
use crate::gitlab_api::{
    group_variable_path, project_variable_path, ApiRequestView, GitLabApi, Lookup, LookupView,
    VariableView,
};
use crate::Performable;
use vstd::prelude::*;
use vstd::string::*;

verus! {

/// Arguments for `get` command
#[derive(Debug, PartialEq)]
pub struct GetVariableCommand {
    /// Variable name
    pub name: String,
    /// Project ID or URL-encoded NAMESPACE/PROJECT_NAME
    pub gitlab_project: Option<String>,
    /// Group ID or URL-encoded path of the group
    pub gitlab_group: Option<String>,
    /// Name of GitLab CI/CD environment
    pub environment: String,
    /// If variable is not found in defined environment (-e option), try with "All" environment.
    pub from_all_if_missing: bool,
    /// GitLab URL
    pub url: String,
    /// GitLab API Token
    pub token: String,
}

/// A [`GetVariableCommand`] with its texts as sequences of characters.
pub struct GetVariableCommandView {
    pub name: Seq<char>,
    pub gitlab_project: Option<Seq<char>>,
    pub gitlab_group: Option<Seq<char>>,
    pub environment: Seq<char>,
    pub from_all_if_missing: bool,
    pub url: Seq<char>,
    pub token: Seq<char>,
}

impl View for GetVariableCommand {
    type V = GetVariableCommandView;

    open spec fn view(&self) -> GetVariableCommandView {
        GetVariableCommandView {
            name: self.name@,
            gitlab_project: self.gitlab_project.deep_view(),
            gitlab_group: self.gitlab_group.deep_view(),
            environment: self.environment@,
            from_all_if_missing: self.from_all_if_missing,
            url: self.url@,
            token: self.token@,
        }
    }
}

impl Clone for GetVariableCommand {
    fn clone(&self) -> (copy: Self)
        ensures
            copy@ == self@,
    {
        GetVariableCommand {
            name: self.name.clone(),
            gitlab_project: self.gitlab_project.clone(),
            gitlab_group: self.gitlab_group.clone(),
            environment: self.environment.clone(),
            from_all_if_missing: self.from_all_if_missing,
            url: self.url.clone(),
            token: self.token.clone(),
        }
    }
}

/// What the command line says of a `get` command.
#[derive(Debug, PartialEq)]
pub struct GetVariableArgs {
    /// Name of the variable
    pub name: String,
    /// Value of `--project`
    pub project: Option<String>,
    /// Value of `--group`
    pub group: Option<String>,
    /// Value of `--environment`
    pub environment: Option<String>,
    /// Whether `--from-all-if-missing` is given
    pub from_all_if_missing: bool,
    /// The GitLab instance
    pub instance: InstanceArgs,
}

/// [`GetVariableArgs`] with its texts as sequences of characters.
pub struct GetVariableArgsView {
    pub name: Seq<char>,
    pub project: Option<Seq<char>>,
    pub group: Option<Seq<char>>,
    pub environment: Option<Seq<char>>,
    pub from_all_if_missing: bool,
    pub instance: InstanceArgsView,
}

impl View for GetVariableArgs {
    type V = GetVariableArgsView;

    open spec fn view(&self) -> GetVariableArgsView {
        GetVariableArgsView {
            name: self.name@,
            project: self.project.deep_view(),
            group: self.group.deep_view(),
            environment: self.environment.deep_view(),
            from_all_if_missing: self.from_all_if_missing,
            instance: self.instance@,
        }
    }
}

impl GetVariableArgsView {
    /// The command that the arguments stand for. The project goes into the
    /// path of a request and is encoded for it; the group is taken as it is.
    pub open spec fn command(self) -> GetVariableCommandView {
        GetVariableCommandView {
            name: self.name,
            gitlab_project: match self.project {
                Some(project) => Some(url_encoded(project)),
                None => None,
            },
            gitlab_group: self.group,
            environment: environment_or_default(self.environment),
            from_all_if_missing: self.from_all_if_missing,
            url: self.instance.url(),
            token: self.instance.token(),
        }
    }
}

impl<'a> From<&'a GetVariableArgs> for GetVariableCommand {
    /// The command that the arguments stand for.
    fn from(args: &'a GetVariableArgs) -> (cmd: GetVariableCommand)
        ensures
            cmd@ == args@.command(),
    {
        GetVariableCommand {
            name: args.name.clone(),
            gitlab_project: match &args.project {
                Some(project) => Some(encode(project.as_str())),
                None => None,
            },
            gitlab_group: args.group.clone(),
            environment: extract_environment(&args.environment),
            from_all_if_missing: args.from_all_if_missing,
            url: extract_url(&args.instance),
            token: extract_token(&args.instance),
        }
    }
}

impl<'a> vstd::std_specs::convert::FromSpecImpl<&'a GetVariableArgs> for GetVariableCommand {
    open spec fn obeys_from_spec() -> bool {
        false
    }

    open spec fn from_spec(args: &'a GetVariableArgs) -> GetVariableCommand {
        arbitrary()
    }
}

/// How far a `get` command has come.
#[derive(Clone, Copy, Debug, PartialEq, Eq, Structural)]
pub enum GetVariableState {
    /// Nothing was done yet.
    Start,
    /// The variable was asked for in the project, in the command's
    /// environment.
    Project,
    /// The project has no such variable in the command's environment, and
    /// the variable was asked for in every environment.
    Fallback,
    /// The variable was asked for in the group.
    Group,
    /// The value is being printed.
    Printing,
    /// The command has ended.
    Done,
}

impl GetVariableState {
    /// How far the state is from the start.
    pub open spec fn stage(self) -> nat {
        match self {
            GetVariableState::Start => 0,
            GetVariableState::Project => 1,
            GetVariableState::Group => 1,
            GetVariableState::Fallback => 2,
            GetVariableState::Printing => 3,
            GetVariableState::Done => 4,
        }
    }

    /// Whether a request for the variable is under way.
    pub open spec fn asking(self) -> bool {
        self == GetVariableState::Project || self == GetVariableState::Group || self
            == GetVariableState::Fallback
    }
}

/// Message of the error for a command that names both a project and a
/// group, or neither.
pub const INVALID_CONTAINER: &'static str =
    "Please set either a GitLab project (-p, --project) or a GitLab group (-g, --group)";

impl GetVariableCommandView {
    /// Whether the command says where to look: in a project or in a group,
    /// and not in both.
    pub open spec fn valid(self) -> bool {
        self.gitlab_project is Some != self.gitlab_group is Some
    }

    /// The request for the command's variable in `project`, in the
    /// environment `environment`.
    pub open spec fn project_request(
        self,
        project: Seq<char>,
        environment: Seq<char>,
    ) -> ApiRequestView {
        ApiRequestView {
            url: self.url + "/api/v4"@ + "/"@ + project_variable_path(
                project,
                self.name,
                environment,
            ),
            token: self.token,
        }
    }

    /// The request for the command's variable in `group`.
    pub open spec fn group_request(self, group: Seq<char>) -> ApiRequestView {
        ApiRequestView {
            url: self.url + "/api/v4"@ + "/"@ + group_variable_path(group, self.name),
            token: self.token,
        }
    }

    /// Whether a variable that the command's environment does not have is
    /// looked for once more, in every environment.
    pub open spec fn falls_back(self) -> bool {
        self.environment != DEFAULT_ENVIRONMENT@ && self.from_all_if_missing
    }

    /// The step that ends a command which does not say where to look.
    pub open spec fn refused() -> (GetVariableState, ActionView) {
        (
            GetVariableState::Done,
            ActionView::Exit(Err(AppErrorView::InvalidInput(INVALID_CONTAINER@))),
        )
    }

    /// The step that ends the reading with the variable: its value is
    /// printed, alone on a line.
    pub open spec fn found(variable: VariableView) -> (GetVariableState, ActionView) {
        (GetVariableState::Printing, ActionView::Print(seq![variable.value]))
    }

    /// The step that ends the command with the error of a request.
    pub open spec fn failed(e: AppErrorView) -> (GetVariableState, ActionView) {
        (GetVariableState::Done, ActionView::Exit(Err(e)))
    }

    /// One step of a command that looks in `project`.
    ///
    /// The variable is asked for in the command's environment. Where the
    /// project has it there, its value is printed. Where the project has no
    /// such variable there, and the command allows it and is not about every
    /// environment anyway, the variable is asked for once more, in every
    /// environment. Every other failure, and a failure of the second
    /// request, ends the command with that failure.
    pub open spec fn project_step(
        self,
        project: Seq<char>,
        state: GetVariableState,
        event: EventView,
    ) -> (GetVariableState, ActionView) {
        match (state, event) {
            (GetVariableState::Start, EventView::Started) => (
                GetVariableState::Project,
                ActionView::Get(self.project_request(project, self.environment)),
            ),
            (GetVariableState::Project, EventView::Variable(lookup)) => match lookup {
                LookupView::Found(variable) => Self::found(variable),
                LookupView::NotFound(e) => if self.falls_back() {
                    (
                        GetVariableState::Fallback,
                        ActionView::Get(self.project_request(project, DEFAULT_ENVIRONMENT@)),
                    )
                } else {
                    Self::failed(e)
                },
                LookupView::Failed(e) => Self::failed(e),
            },
            (GetVariableState::Fallback, EventView::Variable(lookup)) => match lookup {
                LookupView::Found(variable) => Self::found(variable),
                LookupView::NotFound(e) => Self::failed(e),
                LookupView::Failed(e) => Self::failed(e),
            },
            (GetVariableState::Printing, EventView::Printed) => (
                GetVariableState::Done,
                ActionView::Exit(Ok(())),
            ),
            _ => (GetVariableState::Done, unexpected_event()),
        }
    }

    /// One step of a command that looks in `group`. A group's variables have
    /// no environment: the variable is asked for once, and a failure of that
    /// request ends the command.
    pub open spec fn group_step(
        self,
        group: Seq<char>,
        state: GetVariableState,
        event: EventView,
    ) -> (GetVariableState, ActionView) {
        match (state, event) {
            (GetVariableState::Start, EventView::Started) => (
                GetVariableState::Group,
                ActionView::Get(self.group_request(group)),
            ),
            (GetVariableState::Group, EventView::Variable(lookup)) => match lookup {
                LookupView::Found(variable) => Self::found(variable),
                LookupView::NotFound(e) => Self::failed(e),
                LookupView::Failed(e) => Self::failed(e),
            },
            (GetVariableState::Printing, EventView::Printed) => (
                GetVariableState::Done,
                ActionView::Exit(Ok(())),
            ),
            _ => (GetVariableState::Done, unexpected_event()),
        }
    }

    /// One step of the command: the state and the action that follow on
    /// `event` in `state`. A command that names both a project and a group,
    /// or neither, ends with an error before any request.
    pub open spec fn step(self, state: GetVariableState, event: EventView) -> (
        GetVariableState,
        ActionView,
    ) {
        if !self.valid() {
            Self::refused()
        } else {
            match self.gitlab_project {
                Some(project) => self.project_step(project, state, event),
                None => self.group_step(self.gitlab_group->0, state, event),
            }
        }
    }
}

/// Returns the step that ends a command which does not say where to look.
fn refuse() -> (next: (GetVariableState, Action))
    ensures
        (next.0, next.1@) == GetVariableCommandView::refused(),
{
    (
        GetVariableState::Done,
        Action::Exit(Err(AppError::InvalidInput(String::from_str(INVALID_CONTAINER)))),
    )
}

/// Returns the step that ends the reading with what was looked up: the value
/// of the variable is printed, or the command ends with the error.
fn lookup_step(lookup: Lookup) -> (next: (GetVariableState, Action))
    ensures
        (next.0, next.1@) == match lookup@ {
            LookupView::Found(variable) => GetVariableCommandView::found(variable),
            LookupView::NotFound(e) => GetVariableCommandView::failed(e),
            LookupView::Failed(e) => GetVariableCommandView::failed(e),
        },
{
    match lookup {
        Lookup::Found(variable) => {
            let mut lines: Vec<String> = Vec::new();
            lines.push(variable.value);
            proof {
                assert(lines.deep_view() =~= seq![variable@.value]);
            }
            (GetVariableState::Printing, Action::Print(lines))
        },
        Lookup::NotFound(e) => (GetVariableState::Done, Action::Exit(Err(e))),
        Lookup::Failed(e) => (GetVariableState::Done, Action::Exit(Err(e))),
    }
}

/// One step towards the variable value obtained from GitLab API in specified
/// `[group]`. A command that names no group is refused.
pub fn get_variable_from_group(
    cmd: &GetVariableCommand,
    state: GetVariableState,
    event: Event,
) -> (next: (GetVariableState, Action))
    ensures
        (next.0, next.1@) == match cmd@.gitlab_group {
            Some(group) => cmd@.group_step(group, state, event@),
            None => GetVariableCommandView::refused(),
        },
{
    let group = match &cmd.gitlab_group {
        Some(group) => group,
        None => {
            return refuse();
        },
    };
    match (state, event) {
        (GetVariableState::Start, Event::Started) => (
            GetVariableState::Group,
            Action::Get(
                api_client(cmd.url.as_str(), cmd.token.as_str()).get_from_group(
                    group.as_str(),
                    cmd.name.as_str(),
                ),
            ),
        ),
        (GetVariableState::Group, Event::Variable(lookup)) => lookup_step(lookup),
        (GetVariableState::Printing, Event::Printed) => (
            GetVariableState::Done,
            Action::Exit(Ok(())),
        ),
        _ => (GetVariableState::Done, reject_event()),
    }
}

/// One step towards the variable value obtained from GitLab API in specified
/// `[project]`. A command that names no project is refused.
pub fn get_variable_from_project(
    cmd: &GetVariableCommand,
    state: GetVariableState,
    event: Event,
) -> (next: (GetVariableState, Action))
    ensures
        (next.0, next.1@) == match cmd@.gitlab_project {
            Some(project) => cmd@.project_step(project, state, event@),
            None => GetVariableCommandView::refused(),
        },
{
    let project = match &cmd.gitlab_project {
        Some(project) => project,
        None => {
            return refuse();
        },
    };
    match (state, event) {
        (GetVariableState::Start, Event::Started) => (
            GetVariableState::Project,
            Action::Get(
                api_client(cmd.url.as_str(), cmd.token.as_str()).get_from_project(
                    project.as_str(),
                    cmd.name.as_str(),
                    cmd.environment.as_str(),
                ),
            ),
        ),
        (GetVariableState::Project, Event::Variable(lookup)) => {
            let every = String::from_str(DEFAULT_ENVIRONMENT);
            match lookup {
                Lookup::NotFound(e) => {
                    if cmd.environment != every && cmd.from_all_if_missing {
                        (
                            GetVariableState::Fallback,
                            Action::Get(
                                api_client(
                                    cmd.url.as_str(),
                                    cmd.token.as_str(),
                                ).get_from_project(
                                    project.as_str(),
                                    cmd.name.as_str(),
                                    DEFAULT_ENVIRONMENT,
                                ),
                            ),
                        )
                    } else {
                        (GetVariableState::Done, Action::Exit(Err(e)))
                    }
                },
                other => lookup_step(other),
            }
        },
        (GetVariableState::Fallback, Event::Variable(lookup)) => lookup_step(lookup),
        (GetVariableState::Printing, Event::Printed) => (
            GetVariableState::Done,
            Action::Exit(Ok(())),
        ),
        _ => (GetVariableState::Done, reject_event()),
    }
}

impl GetVariableCommand {
    /// Whether the command says where to look: in a project or in a group,
    /// and not in both.
    pub fn is_valid(&self) -> (valid: bool)
        ensures
            valid == self@.valid(),
    {
        self.gitlab_project.is_some() != self.gitlab_group.is_some()
    }
}

impl Performable for GetVariableCommand {
    type State = GetVariableState;

    fn initial_state(&self) -> (state: GetVariableState)
        ensures
            state == GetVariableState::Start,
    {
        GetVariableState::Start
    }

    fn get_action(
        &self,
        state: GetVariableState,
        event: Event,
    ) -> (next: (GetVariableState, Action))
        ensures
            (next.0, next.1@) == self@.step(state, event@),
    {
        if !self.is_valid() {
            return refuse();
        }
        match self.gitlab_project {
            Some(_) => get_variable_from_project(self, state, event),
            None => get_variable_from_group(self, state, event),
        }
    }
}

/// Every step takes the command forward, and a request is under way in two
/// of its stages only: a command sends one request, or two. It sends the
/// second only for a project that has no such variable in the command's
/// environment, where the command allows the second and is not about every
/// environment anyway. Nothing but the value of the variable is printed.
pub proof fn lemma_at_most_two_requests(
    cmd: GetVariableCommandView,
    state: GetVariableState,
    event: EventView,
)
    ensures
        ({
            let next = cmd.step(state, event);
            &&& state != GetVariableState::Done ==> next.0.stage() > state.stage()
            &&& next.0 == GetVariableState::Done <==> next.1 is Exit
            &&& next.1 is Get <==> next.0.asking()
            &&& next.0.asking() ==> next.0.stage() == 1 || next.0.stage() == 2
            &&& next.0 == GetVariableState::Fallback ==> {
                &&& state == GetVariableState::Project
                &&& event matches EventView::Variable(LookupView::NotFound(_))
                &&& cmd.falls_back()
                &&& cmd.gitlab_project is Some
            }
            &&& next.1 is Print ==> (event matches EventView::Variable(
                LookupView::Found(variable),
            ) && next.1 == ActionView::Print(seq![variable.value]))
            &&& next.1 is Get || next.1 is Print || next.1 is Exit
        }),
{
}

/// A variable that the project has in every environment only is found by a
/// command about one environment that allows the second request: the first
/// request is for the command's environment, the second, sent when the first
/// found nothing, for every environment, and the value that it brings is
/// printed.
pub proof fn lemma_fallback_finds_the_variable_of_all(
    cmd: GetVariableCommandView,
    project: Seq<char>,
    missing: AppErrorView,
    variable: VariableView,
)
    requires
        cmd.valid(),
        cmd.gitlab_project == Some(project),
        cmd.falls_back(),
    ensures
        cmd.step(GetVariableState::Start, EventView::Started) == (
            GetVariableState::Project,
            ActionView::Get(cmd.project_request(project, cmd.environment)),
        ),
        cmd.step(
            GetVariableState::Project,
            EventView::Variable(LookupView::NotFound(missing)),
        ) == (
            GetVariableState::Fallback,
            ActionView::Get(cmd.project_request(project, DEFAULT_ENVIRONMENT@)),
        ),
        cmd.step(GetVariableState::Fallback, EventView::Variable(LookupView::Found(variable)))
            == (GetVariableState::Printing, ActionView::Print(seq![variable.value])),
{
}

/// Without the second request a variable that the project does not have in
/// the command's environment ends the command with the failure of the one
/// request that was sent.
pub proof fn lemma_no_fallback_no_second_request(
    cmd: GetVariableCommandView,
    project: Seq<char>,
    missing: AppErrorView,
)
    requires
        cmd.valid(),
        cmd.gitlab_project == Some(project),
        !cmd.falls_back(),
    ensures
        cmd.step(
            GetVariableState::Project,
            EventView::Variable(LookupView::NotFound(missing)),
        ) == (GetVariableState::Done, ActionView::Exit(Err(missing))),
{
}

} // verus!
