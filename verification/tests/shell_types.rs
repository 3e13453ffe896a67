use gitlab_rescue::shell_types::ShellType;

#[test]
fn posix_export_command() {
    let shell = ShellType::Posix;
    let expected = "export HOME=\"/home/user\"".to_owned();
    assert_eq!(shell.export_command("HOME".to_owned(), "/home/user".to_owned()), expected);
}

#[test]
fn fish_export_command() {
    let shell = ShellType::Fish;
    let expected = "set -gx HOME \"/home/user\"".to_owned();
    assert_eq!(shell.export_command("HOME".to_owned(), "/home/user".to_owned()), expected);
}

#[test]
fn export_command_of_empty_texts() {
    assert_eq!(ShellType::Posix.export_command(String::new(), String::new()), "export =\"\"");
    assert_eq!(ShellType::Fish.export_command(String::new(), String::new()), "set -gx  \"\"");
}

#[test]
fn export_command_keeps_the_value_as_it_is() {
    assert_eq!(
        ShellType::Posix.export_command("JSON".to_owned(), "{\"a\": \"b c\"}".to_owned()),
        "export JSON=\"{\"a\": \"b c\"}\""
    );
}

#[test]
fn shell_names() {
    assert_eq!(ShellType::Posix.to_string(), "posix");
    assert_eq!(ShellType::Fish.to_string(), "fish");
}
