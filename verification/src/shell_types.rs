//! The shells for which export statements are written.

use vstd::prelude::*;
use vstd::string::*;

verus! {

/// Shell dialects for which export statements can be generated.
#[derive(Clone, Copy, Debug, PartialEq, Eq, Structural)]
pub enum ShellType {
    /// POSIX shells (bash, zsh)
    Posix,
    /// Fish shell
    Fish,
}

/// The statement that binds `variable` to `value` in a shell of the given
/// dialect and exports it: `export NAME="value"` for POSIX shells,
/// `set -gx NAME "value"` for fish.
pub open spec fn export_statement(shell: ShellType, variable: Seq<char>, value: Seq<char>) -> Seq<
    char,
> {
    match shell {
        ShellType::Posix => "export "@ + variable + "=\""@ + value + "\""@,
        ShellType::Fish => "set -gx "@ + variable + " \""@ + value + "\""@,
    }
}

impl ShellType {
    /// The name of the dialect: `posix` or `fish`.
    pub open spec fn name(self) -> Seq<char> {
        match self {
            ShellType::Posix => "posix"@,
            ShellType::Fish => "fish"@,
        }
    }

    /// The name of the dialect, as it is shown to the user.
    pub fn to_string(&self) -> (name: String)
        ensures
            name@ == self.name(),
    {
        match self {
            ShellType::Posix => String::from_str("posix"),
            ShellType::Fish => String::from_str("fish"),
        }
    }

    /// Generates the statement that exports `variable` with `value` in this
    /// shell.
    pub fn export_command(&self, variable: String, value: String) -> (command: String)
        ensures
            command@ == export_statement(*self, variable@, value@),
    {
        match self {
            ShellType::Posix => {
                let mut command = String::from_str("export ");
                command.append(variable.as_str());
                command.append("=\"");
                command.append(value.as_str());
                command.append("\"");
                command
            },
            ShellType::Fish => {
                let mut command = String::from_str("set -gx ");
                command.append(variable.as_str());
                command.append(" \"");
                command.append(value.as_str());
                command.append("\"");
                command
            },
        }
    }
}

} // verus!
