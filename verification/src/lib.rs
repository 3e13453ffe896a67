//! Retrieval of GitLab CI/CD variables and their export as shell statements.

pub mod action;
pub mod api_client;
pub mod app_error;
pub mod args;
pub mod dotenv;
pub mod encoding;
pub mod export;
pub mod get_variable;
pub mod gitlab_api;
pub mod gitlab_instance;
pub mod io;
pub mod pagination;
pub mod projection;
pub mod shell_types;
pub mod text;

use crate::action::{Action, Event};
use vstd::prelude::*;

verus! {

/// Trait for all `gitlab-rescue` commands.
///
/// A command is carried out step by step: it names an action, the program
/// around it performs the action and reports the event, and on the event the
/// command names the next action. What the command remembers between two
/// steps is its state.
pub trait Performable {
    /// What the command remembers between two steps.
    type State;

    /// The state of a command of which nothing was carried out yet. Its
    /// first event is [`Event::Started`].
    fn initial_state(&self) -> Self::State;

    /// Get the action that follows on `event` in `state`, with the state
    /// after it.
    fn get_action(&self, state: Self::State, event: Event) -> (Self::State, Action);
}

} // verus!
