use gitlab_rescue::app_error::AppError;
use gitlab_rescue::gitlab_instance::GitLabInstance;

#[test]
fn instance_with_project_and_token() {
    let instance =
        GitLabInstance::new("https://gitlab.com".to_owned(), "42".to_owned(), "t0k3n".to_owned())
            .unwrap();
    assert_eq!(instance.url, "https://gitlab.com");
    assert_eq!(instance.project_id, "42");
    assert_eq!(instance.api_token, "t0k3n");
}

#[test]
fn instance_without_project_is_refused() {
    let error = GitLabInstance::new("u".to_owned(), String::new(), "t".to_owned()).unwrap_err();
    assert_eq!(
        error,
        AppError::InvalidInput(
            "Please set a valid GitLab project ID (-p, --project-id or $GITLAB_PROJECT_ID variable)"
                .to_owned()
        )
    );
}

#[test]
fn instance_without_token_is_refused() {
    let error = GitLabInstance::new("u".to_owned(), "42".to_owned(), String::new()).unwrap_err();
    assert_eq!(
        error,
        AppError::InvalidInput(
            "Please set a valid GitLab API token (-t, --token or $GITLAB_API_TOKEN variable)"
                .to_owned()
        )
    );
}

#[test]
fn instance_without_project_and_token_reports_the_project() {
    let error = GitLabInstance::new(String::new(), String::new(), String::new()).unwrap_err();
    assert!(matches!(error, AppError::InvalidInput(m) if m.contains("project ID")));
}
