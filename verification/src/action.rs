//! What a command asks of the program around it, and what the program
//! answers.
//!
//! A command never touches the network, the file system or the terminal. It
//! names the next thing to be done as an [`Action`]; the program does it and
//! reports how it went as an [`Event`], on which the command names the next
//! action, until that action is [`Action::Exit`].

use crate::app_error::{AppError, AppErrorView};
use crate::gitlab_api::{
    page_view, pages_view, ApiRequest, ApiRequestView, Lookup, LookupView, Page, PageView,
};
use vstd::prelude::*;
use vstd::string::*;

verus! {

/// The view of the end of a step that returns nothing.
pub open spec fn done_view(outcome: Result<(), AppError>) -> Result<(), AppErrorView> {
    match outcome {
        Ok(_) => Ok(()),
        Err(e) => Err(e@),
    }
}

/// Why the files of a project's variables could not all be written.
#[derive(Debug, PartialEq)]
pub enum FileFailure {
    /// The folder for the files could not be created.
    Folder(AppError),
    /// The folder is there, and a file could not be written. Holds the error
    /// of the first file that failed.
    File(AppError),
}

/// A [`FileFailure`] with its texts as sequences of characters.
pub enum FileFailureView {
    Folder(AppErrorView),
    File(AppErrorView),
}

impl View for FileFailure {
    type V = FileFailureView;

    open spec fn view(&self) -> FileFailureView {
        match self {
            FileFailure::Folder(e) => FileFailureView::Folder(e@),
            FileFailure::File(e) => FileFailureView::File(e@),
        }
    }
}

/// What the program is to do next for a command.
#[derive(Debug, PartialEq)]
pub enum Action {
    /// Send the request for one variable. Answer: [`Event::Variable`].
    Get(ApiRequest),
    /// Send the request for one page of variables. Answer: [`Event::Page`].
    List(ApiRequest),
    /// Send all these requests for pages, as many at a time as the number
    /// says, and wait for every one of them. Answer: [`Event::Pages`], with
    /// one page for each request.
    ListAll(Vec<ApiRequest>, usize),
    /// Create the folder, unless it is there, and then each file in it with
    /// its content. Answer: [`Event::Files`].
    CreateFiles(String, Vec<(String, Vec<u8>)>),
    /// Write the text to the file of that name. Answer: [`Event::Output`].
    WriteOutput(String, String),
    /// Print the lines to the standard output. Answer: [`Event::Printed`].
    Print(Vec<String>),
    /// The command has ended, with this result. There is no answer.
    Exit(Result<(), AppError>),
}

/// An [`Action`] with its texts as sequences of characters.
pub enum ActionView {
    Get(ApiRequestView),
    List(ApiRequestView),
    ListAll(Seq<ApiRequestView>, usize),
    CreateFiles(Seq<char>, Seq<(Seq<char>, Seq<u8>)>),
    WriteOutput(Seq<char>, Seq<char>),
    Print(Seq<Seq<char>>),
    Exit(Result<(), AppErrorView>),
}

impl View for Action {
    type V = ActionView;

    open spec fn view(&self) -> ActionView {
        match self {
            Action::Get(request) => ActionView::Get(request@),
            Action::List(request) => ActionView::List(request@),
            Action::ListAll(requests, parallel) => ActionView::ListAll(
                requests.deep_view(),
                *parallel,
            ),
            Action::CreateFiles(folder, files) => ActionView::CreateFiles(
                folder@,
                files.deep_view(),
            ),
            Action::WriteOutput(file, text) => ActionView::WriteOutput(file@, text@),
            Action::Print(lines) => ActionView::Print(lines.deep_view()),
            Action::Exit(outcome) => ActionView::Exit(done_view(*outcome)),
        }
    }
}

/// How the last action went, or that the command is to begin.
#[derive(Debug, PartialEq)]
pub enum Event {
    /// Nothing was done yet: the command is to name its first action.
    Started,
    /// How the request of [`Action::Get`] ended.
    Variable(Lookup),
    /// How the request of [`Action::List`] ended.
    Page(Page),
    /// How the requests of [`Action::ListAll`] ended, one page for each, in
    /// the order in which they ended.
    Pages(Vec<Page>),
    /// Whether the folder and the files of [`Action::CreateFiles`] are there.
    Files(Result<(), FileFailure>),
    /// Whether the text of [`Action::WriteOutput`] stands in its file.
    Output(Result<(), AppError>),
    /// The lines of [`Action::Print`] were printed.
    Printed,
}

/// An [`Event`] with its texts as sequences of characters.
pub enum EventView {
    Started,
    Variable(LookupView),
    Page(PageView),
    Pages(Seq<PageView>),
    Files(Result<(), FileFailureView>),
    Output(Result<(), AppErrorView>),
    Printed,
}

impl View for Event {
    type V = EventView;

    open spec fn view(&self) -> EventView {
        match self {
            Event::Started => EventView::Started,
            Event::Variable(lookup) => EventView::Variable(lookup@),
            Event::Page(page) => EventView::Page(page_view(*page)),
            Event::Pages(pages) => EventView::Pages(pages_view(pages@)),
            Event::Files(outcome) => EventView::Files(
                match outcome {
                    Ok(_) => Ok(()),
                    Err(failure) => Err(failure@),
                },
            ),
            Event::Output(outcome) => EventView::Output(done_view(*outcome)),
            Event::Printed => EventView::Printed,
        }
    }
}

/// Message of the error for an event that does not answer the action that
/// the command asked for.
pub const UNEXPECTED_EVENT: &'static str = "Event does not answer the action that was asked for";

/// The end of a command on an event that does not answer its last action.
pub open spec fn unexpected_event() -> ActionView {
    ActionView::Exit(Err(AppErrorView::Cli(UNEXPECTED_EVENT@)))
}

/// Returns the action that ends a command on an event that does not answer
/// its last action.
pub fn reject_event() -> (action: Action)
    ensures
        action@ == unexpected_event(),
{
    Action::Exit(Err(AppError::Cli(String::from_str(UNEXPECTED_EVENT))))
}

} // verus!
