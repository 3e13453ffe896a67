//! The errors that a command can end with.

use vstd::prelude::*;
use vstd::string::*;

verus! {

/// `std::io::Error`, of which nothing is known here but that it is one.
#[verifier::external_type_specification]
#[verifier::external_body]
pub struct ExIoError(std::io::Error);

/// Failure of a command, by class, with a message for the user.
#[derive(Debug, PartialEq)]
pub enum AppError {
    /// What the user handed in cannot be used.
    InvalidInput(String),
    /// The GitLab API could not be reached, refused the request or answered
    /// with something that cannot be understood.
    Api(String),
    /// The command itself failed at its work.
    Cli(String),
}

/// What a command returns: its result, or the error that it ended with.
pub type Result<T> = std::result::Result<T, AppError>;

/// An [`AppError`] with its message as a sequence of characters.
pub enum AppErrorView {
    InvalidInput(Seq<char>),
    Api(Seq<char>),
    Cli(Seq<char>),
}

impl View for AppError {
    type V = AppErrorView;

    open spec fn view(&self) -> AppErrorView {
        match self {
            AppError::InvalidInput(m) => AppErrorView::InvalidInput(m@),
            AppError::Api(m) => AppErrorView::Api(m@),
            AppError::Cli(m) => AppErrorView::Cli(m@),
        }
    }
}

impl DeepView for AppError {
    type V = AppErrorView;

    open spec fn deep_view(&self) -> AppErrorView {
        self@
    }
}

impl AppErrorView {
    /// The tag that names the class of the error.
    pub open spec fn label(self) -> Seq<char> {
        match self {
            AppErrorView::InvalidInput(_) => "[InvalidInputError]"@,
            AppErrorView::Api(_) => "[ApiError]"@,
            AppErrorView::Cli(_) => "[CliError]"@,
        }
    }

    /// The message without its tag.
    pub open spec fn message(self) -> Seq<char> {
        match self {
            AppErrorView::InvalidInput(m) => m,
            AppErrorView::Api(m) => m,
            AppErrorView::Cli(m) => m,
        }
    }

    /// The line shown to the user: the tag in bold red, a space, the message.
    pub open spec fn text(self) -> Seq<char> {
        red_bold(self.label()) + " "@ + self.message()
    }
}

/// `label` between the terminal escape sequences that switch bold red on
/// before it and every style off after it.
pub open spec fn red_bold(label: Seq<char>) -> Seq<char> {
    seq!['\u{1b}', '[', '1', ';', '3', '1', 'm'] + label + seq!['\u{1b}', '[', '0', 'm']
}

/// Calls `ansi_term::Colour::Red.bold().paint(label)` and formats what it
/// gives. Trusted: the text is `ESC[1;31m`, the label, `ESC[0m`, which is what
/// the crate writes as prefix and suffix of a bold style with a red foreground.
#[verifier::external_body]
fn paint_red_bold(label: &str) -> (painted: String)
    ensures
        painted@ == red_bold(label@),
{
    ansi_term::Colour::Red.bold().paint(label).to_string()
}

/// Formats a `std::io::Error` by its `Display`. Trusted, and nothing is
/// claimed of the text: for an error of the operating system it depends on
/// the machine.
#[verifier::external_body]
fn io_error_text(e: &std::io::Error) -> (text: String) {
    format!("{}", e)
}

impl Clone for AppError {
    fn clone(&self) -> (copy: Self)
        ensures
            copy == *self,
    {
        match self {
            AppError::InvalidInput(m) => AppError::InvalidInput(m.clone()),
            AppError::Api(m) => AppError::Api(m.clone()),
            AppError::Cli(m) => AppError::Cli(m.clone()),
        }
    }
}

impl AppError {
    /// The message of the error, without the tag of its class.
    pub fn message(&self) -> (message: &String)
        ensures
            message@ == self@.message(),
    {
        match self {
            AppError::InvalidInput(m) => m,
            AppError::Api(m) => m,
            AppError::Cli(m) => m,
        }
    }

    /// The line shown to the user for this error.
    pub fn to_string(&self) -> (line: String)
        ensures
            line@ == self@.text(),
    {
        let (label, message) = match self {
            AppError::InvalidInput(m) => ("[InvalidInputError]", m),
            AppError::Api(m) => ("[ApiError]", m),
            AppError::Cli(m) => ("[CliError]", m),
        };
        let mut line = paint_red_bold(label);
        line.append(" ");
        line.append(message.as_str());
        line
    }
}

impl From<std::io::Error> for AppError {
    /// An error of the file system is one of input that cannot be used.
    fn from(e: std::io::Error) -> (err: AppError)
        ensures
            err is InvalidInput,
    {
        AppError::InvalidInput(io_error_text(&e))
    }
}

impl vstd::std_specs::convert::FromSpecImpl<std::io::Error> for AppError {
    open spec fn obeys_from_spec() -> bool {
        false
    }

    open spec fn from_spec(e: std::io::Error) -> AppError {
        arbitrary()
    }
}

} // verus!
