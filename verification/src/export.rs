//! The files and the statements that carry variables into a shell.

use crate::gitlab_api::{GitLabVariable, GitLabVariableType, VariableView};
use crate::shell_types::{export_statement, ShellType};
use vstd::prelude::*;
use vstd::string::*;
use vstd::utf8::encode_utf8;

verus! {

/// Name of the file that holds the value of the variable `key` in `folder`.
pub open spec fn file_path(folder: Seq<char>, key: Seq<char>) -> Seq<char> {
    folder + "/"@ + key + ".var"@
}

/// Whether the value of a variable is the content of a file.
pub open spec fn is_file(variable: VariableView) -> bool {
    variable.variable_type == GitLabVariableType::File
}

/// The test by which variables of type file are told from the others.
pub open spec fn file_kind() -> spec_fn(VariableView) -> bool {
    |variable: VariableView| is_file(variable)
}

/// The file of a variable of type file: its name in `folder`, and the bytes
/// of its value.
pub open spec fn file_of(folder: Seq<char>, variable: VariableView) -> (Seq<char>, Seq<u8>) {
    (file_path(folder, variable.key), encode_utf8(variable.value))
}

/// The files to create in `folder`: one for each variable of type file, in
/// the order of the variables; none for the others.
pub open spec fn files_to_create(folder: Seq<char>, variables: Seq<VariableView>) -> Seq<
    (Seq<char>, Seq<u8>),
> {
    variables.filter(file_kind()).map_values(|variable: VariableView| file_of(folder, variable))
}

/// Returns the name of the file for the variable `key` in `folder`.
fn path_of(folder: &str, key: &str) -> (path: String)
    ensures
        path@ == file_path(folder@, key@),
{
    let mut path = String::from_str(folder);
    path.append("/");
    path.append(key);
    path.append(".var");
    path
}

/// Get the list of files to create for variables of type "File": the name of
/// each file in `folder`, with the bytes to write to it.
pub fn get_files_to_create(
    folder: &str,
    variables: &[GitLabVariable],
) -> (files: Vec<(String, Vec<u8>)>)
    ensures
        files.deep_view() == files_to_create(folder@, variables.deep_view()),
{
    let mut files: Vec<(String, Vec<u8>)> = Vec::new();
    let mut i: usize = 0;
    proof {
        assert(variables.deep_view().take(0) =~= Seq::empty());
        assert(files.deep_view() =~= files_to_create(folder@, variables.deep_view().take(0)));
    }
    while i < variables.len()
        invariant
            i <= variables.len(),
            files.deep_view() == files_to_create(folder@, variables.deep_view().take(i as int)),
        decreases variables.len() - i,
    {
        let variable = &variables[i];
        let ghost before = files.deep_view();
        proof {
            let seen = variables.deep_view().take(i as int);
            assert(variables.deep_view().take(i + 1) =~= seen.push(variable@));
            seen.lemma_filter_push(variable@, file_kind());
        }
        match variable.variable_type {
            GitLabVariableType::File => {
                let path = path_of(folder, variable.key.as_str());
                let content = variable.value.as_str().as_bytes_vec();
                proof {
                    assert(content.deep_view() =~= encode_utf8(variable@.value));
                }
                files.push((path, content));
                proof {
                    assert(files.deep_view() =~= before.push(file_of(folder@, variable@)));
                    assert(files.deep_view() =~= files_to_create(
                        folder@,
                        variables.deep_view().take(i + 1),
                    ));
                }
            },
            GitLabVariableType::EnvVar => {},
        }
        i = i + 1;
    }
    proof {
        assert(variables.deep_view().take(i as int) =~= variables.deep_view());
    }
    files
}

/// What a variable is bound to in a shell: its value, or, for a variable of
/// type file, the name of the file that holds the value.
pub open spec fn bound_value(variable: VariableView, folder: Seq<char>) -> Seq<char> {
    match variable.variable_type {
        GitLabVariableType::File => file_path(folder, variable.key),
        GitLabVariableType::EnvVar => variable.value,
    }
}

/// The statement that exports a variable in a shell.
pub open spec fn export_of(shell: ShellType, variable: VariableView, folder: Seq<char>) -> Seq<
    char,
> {
    export_statement(shell, variable.key, bound_value(variable, folder))
}

/// The statements that export the variables in a shell: one for each
/// variable, in the order of the variables.
pub open spec fn export_statements(
    shell: ShellType,
    variables: Seq<VariableView>,
    folder: Seq<char>,
) -> Seq<Seq<char>> {
    variables.map_values(|variable: VariableView| export_of(shell, variable, folder))
}

/// Generates a list of commands for exporting all variables in user's shell
pub fn generate_commands(
    shell: ShellType,
    variables: &[GitLabVariable],
    folder: &str,
) -> (commands: Vec<String>)
    ensures
        commands.deep_view() == export_statements(shell, variables.deep_view(), folder@),
{
    let mut commands: Vec<String> = Vec::new();
    let mut i: usize = 0;
    while i < variables.len()
        invariant
            i <= variables.len(),
            commands.len() == i,
            forall|j: int|
                0 <= j < i ==> (#[trigger] commands[j])@ == export_of(
                    shell,
                    variables[j]@,
                    folder@,
                ),
        decreases variables.len() - i,
    {
        let variable = &variables[i];
        let value = match variable.variable_type {
            GitLabVariableType::File => path_of(folder, variable.key.as_str()),
            GitLabVariableType::EnvVar => variable.value.clone(),
        };
        commands.push(shell.export_command(variable.key.clone(), value));
        i = i + 1;
    }
    proof {
        assert(commands.deep_view() =~= export_statements(
            shell,
            variables.deep_view(),
            folder@,
        ));
    }
    commands
}

/// The lines, with a line feed between each two of them.
pub open spec fn joined_lines(lines: Seq<Seq<char>>) -> Seq<char>
    decreases lines.len(),
{
    if lines.len() == 0 {
        Seq::empty()
    } else if lines.len() == 1 {
        lines[0]
    } else {
        joined_lines(lines.drop_last()) + "\n"@ + lines.last()
    }
}

/// The text of the output file for some statements: the statements with a
/// line feed between each two of them, and one at the end.
pub open spec fn dotenv_text(statements: Seq<Seq<char>>) -> Seq<char> {
    joined_lines(statements) + "\n"@
}

/// Returns the text of the output file for the statements.
pub fn dotenv_content(statements: &Vec<String>) -> (text: String)
    ensures
        text@ == dotenv_text(statements.deep_view()),
{
    let ghost lines = statements.deep_view();
    let mut text = String::new();
    let mut i: usize = 0;
    proof {
        assert(lines.take(0) =~= Seq::empty());
    }
    while i < statements.len()
        invariant
            i <= statements.len(),
            lines == statements.deep_view(),
            text@ == joined_lines(lines.take(i as int)),
        decreases statements.len() - i,
    {
        proof {
            assert(lines.take(i + 1).drop_last() =~= lines.take(i as int));
            assert(lines.take(i + 1).last() == statements[i as int]@);
        }
        if i > 0 {
            text.append("\n");
        }
        text.append(statements[i].as_str());
        proof {
            if i == 0 {
                assert(text@ =~= statements[i as int]@);
            }
        }
        i = i + 1;
    }
    proof {
        assert(lines.take(i as int) =~= lines);
    }
    text.append("\n");
    text
}

/// There is one statement for each variable, in the order of the variables.
/// The statement of a variable of type file binds the variable to the name
/// of its file in the folder, whatever its value is; that of any other
/// variable binds it to its value.
pub proof fn lemma_one_statement_per_variable(
    shell: ShellType,
    variables: Seq<VariableView>,
    folder: Seq<char>,
)
    ensures
        export_statements(shell, variables, folder).len() == variables.len(),
        forall|i: int|
            0 <= i < variables.len() ==> #[trigger] export_statements(shell, variables, folder)[i]
                == export_statement(
                shell,
                variables[i].key,
                if is_file(variables[i]) {
                    file_path(folder, variables[i].key)
                } else {
                    variables[i].value
                },
            ),
{
}

/// What a folder holds after some files were written to it, one after the
/// other: for each name the bytes that were written to it last.
pub open spec fn written(files: Seq<(Seq<char>, Seq<u8>)>) -> Map<Seq<char>, Seq<u8>>
    decreases files.len(),
{
    if files.len() == 0 {
        Map::empty()
    } else {
        written(files.drop_last()).insert(files.last().0, files.last().1)
    }
}

/// Two variables have the same file in a folder only if they have the same
/// key.
pub proof fn lemma_file_path_tells_keys_apart(folder: Seq<char>, a: Seq<char>, b: Seq<char>)
    requires
        file_path(folder, a) == file_path(folder, b),
    ensures
        a == b,
{
    let head = folder + "/"@;
    let tail = ".var"@;
    assert(file_path(folder, a) =~= head + a + tail);
    assert(file_path(folder, b) =~= head + b + tail);
    assert(a.len() == b.len());
    assert forall|i: int| 0 <= i < a.len() implies a[i] == b[i] by {
        assert((head + a + tail)[head.len() + i] == a[i]);
        assert((head + b + tail)[head.len() + i] == b[i]);
    }
    assert(a =~= b);
}

/// The files of some variables and one more: the files of the variables,
/// and after them the file of the last one if it is of type file.
proof fn lemma_files_to_create_push(
    folder: Seq<char>,
    variables: Seq<VariableView>,
    last: VariableView,
)
    ensures
        files_to_create(folder, variables.push(last)) == if is_file(last) {
            files_to_create(folder, variables).push(file_of(folder, last))
        } else {
            files_to_create(folder, variables)
        },
{
    variables.lemma_filter_push(last, file_kind());
    if is_file(last) {
        assert(files_to_create(folder, variables.push(last)) =~= files_to_create(
            folder,
            variables,
        ).push(file_of(folder, last)));
    }
}

/// A variable of type file is bound, in its statement, to the name of a
/// file, and once the files are written that file holds the bytes of the
/// variable's value. This holds of every variable of type file after which
/// no other variable of type file has the same key with another value: a
/// later one would be written to the same file.
pub proof fn lemma_statement_names_the_file_of_the_value(
    shell: ShellType,
    folder: Seq<char>,
    variables: Seq<VariableView>,
    i: int,
)
    requires
        0 <= i < variables.len(),
        is_file(variables[i]),
        forall|j: int|
            i < j < variables.len() && is_file(#[trigger] variables[j]) && variables[j].key
                == variables[i].key ==> variables[j].value == variables[i].value,
    ensures
        export_statements(shell, variables, folder)[i] == export_statement(
            shell,
            variables[i].key,
            file_path(folder, variables[i].key),
        ),
        written(files_to_create(folder, variables)).contains_key(
            file_path(folder, variables[i].key),
        ),
        written(files_to_create(folder, variables))[file_path(folder, variables[i].key)]
            == encode_utf8(variables[i].value),
    decreases variables.len(),
{
    let rest = variables.drop_last();
    let last = variables.last();
    let files = files_to_create(folder, variables);
    let path = file_path(folder, variables[i].key);
    assert(variables =~= rest.push(last));
    lemma_files_to_create_push(folder, rest, last);
    if is_file(last) {
        assert(files.drop_last() =~= files_to_create(folder, rest));
        assert(files.last() == file_of(folder, last));
    }
    if i < rest.len() {
        assert forall|j: int|
            i < j < rest.len() && is_file(#[trigger] rest[j]) && rest[j].key
                == rest[i].key implies rest[j].value == rest[i].value by {
            assert(rest[j] == variables[j]);
        }
        lemma_statement_names_the_file_of_the_value(shell, folder, rest, i);
        if is_file(last) && file_path(folder, last.key) == path {
            lemma_file_path_tells_keys_apart(folder, last.key, variables[i].key);
            assert(last == variables[variables.len() - 1]);
        }
    }
}

} // verus!
