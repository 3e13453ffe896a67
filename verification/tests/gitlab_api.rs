use gitlab_rescue::api_client::{api_client, DEFAULT_ENVIRONMENT};
use gitlab_rescue::app_error::AppError;
use gitlab_rescue::gitlab_api::{
    get_pagination_header, page_failure, page_from_response, ApiRequest, GitLabApi, GitLabApiV4,
    GitLabVariable, GitLabVariableType, Lookup,
};

fn variable(scope: &str) -> GitLabVariable {
    GitLabVariable {
        variable_type: GitLabVariableType::EnvVar,
        key: "TOKEN".to_owned(),
        value: "s3cr3t".to_owned(),
        environment_scope: scope.to_owned(),
    }
}

#[test]
fn test_should_get_variable_list_from_project() {
    let num_variables: usize = 37;
    let request =
        GitLabApiV4::new("http://localhost:5000".to_owned(), "abcde".to_owned()).list_from_project(
            "a-project",
            1,
            num_variables,
        );
    assert_eq!(
        request,
        ApiRequest {
            url: "http://localhost:5000/api/v4/projects/a-project/variables?page=1&per_page=37"
                .to_owned(),
            token: "abcde".to_owned(),
        }
    );
    let body: Vec<GitLabVariable> = (0..num_variables).map(|_| variable("*")).collect();
    let (l, total) = page_from_response(Some("37"), Ok(body)).unwrap();
    assert_eq!(l.len(), num_variables);
    assert_eq!(total, num_variables);
}

#[test]
fn test_should_get_a_variable_from_project() {
    let request = GitLabApiV4::new("http://localhost:5000".to_owned(), "abcde".to_owned())
        .get_from_project("a-project", "NAME", "A");
    assert_eq!(
        request.url,
        "http://localhost:5000/api/v4/projects/a-project/variables/NAME?filter[environment_scope]=A"
    );
    assert_eq!(request.token, "abcde");
    let sent = variable("A");
    assert_eq!(Lookup::found(&sent), Lookup::Found(sent));
}

#[test]
fn test_should_get_a_variable_from_group() {
    let request = GitLabApiV4::new("http://localhost:5000".to_owned(), "abcde".to_owned())
        .get_from_group("a-group", "NAME");
    assert_eq!(request.url, "http://localhost:5000/api/v4/groups/a-group/variables/NAME");
    assert_eq!(request.token, "abcde");
    let sent = variable("A");
    assert_eq!(Lookup::found(&sent), Lookup::Found(sent));
}

#[test]
fn every_environment_goes_out_as_a_star() {
    let api = api_client("https://gitlab.com", "t");
    assert_eq!(
        api.get_from_project("7", "NAME", DEFAULT_ENVIRONMENT).url,
        "https://gitlab.com/api/v4/projects/7/variables/NAME?filter[environment_scope]=*"
    );
    assert_eq!(
        api.get_from_project("7", "NAME", "all").url,
        "https://gitlab.com/api/v4/projects/7/variables/NAME?filter[environment_scope]=all"
    );
}

#[test]
fn api_client_is_version_four_at_the_url() {
    let request = api_client("https://gitlab.example.org", "A_GITLAB_TOKEN").list_from_project(
        "group%2Fproject",
        12,
        100,
    );
    assert_eq!(
        request.url,
        "https://gitlab.example.org/api/v4/projects/group%2Fproject/variables?page=12&per_page=100"
    );
    assert_eq!(request.token, "A_GITLAB_TOKEN");
}

#[test]
fn clone_from_response_names_every_environment_all() {
    assert_eq!(variable("*").clone_from_response(), variable("All"));
    assert_eq!(variable("All").clone_from_response(), variable("All"));
    assert_eq!(variable("dev").clone_from_response(), variable("dev"));
    assert_eq!(variable("").clone_from_response(), variable(""));
    assert_eq!(variable("**").clone_from_response(), variable("**"));
}

#[test]
fn clone_from_response_keeps_type_key_and_value() {
    let sent = GitLabVariable {
        variable_type: GitLabVariableType::File,
        key: "CERT".to_owned(),
        value: "-----BEGIN-----".to_owned(),
        environment_scope: "*".to_owned(),
    };
    let read = sent.clone_from_response();
    assert_eq!(read.variable_type, GitLabVariableType::File);
    assert_eq!(read.key, "CERT");
    assert_eq!(read.value, "-----BEGIN-----");
    assert_eq!(read.environment_scope, "All");
}

#[test]
fn found_variable_has_its_scope_in_the_notation_of_the_commands() {
    assert_eq!(Lookup::found(&variable("*")), Lookup::Found(variable("All")));
}

#[test]
fn failure_with_status_404_is_not_found() {
    assert_eq!(
        Lookup::failure(Some(404), "no such variable".to_owned()),
        Lookup::NotFound(AppError::Api("no such variable".to_owned()))
    );
}

#[test]
fn other_failures_are_failures() {
    for status in [Some(400), Some(401), Some(403), Some(500), Some(200), None] {
        assert_eq!(
            Lookup::failure(status, "refused".to_owned()),
            Lookup::Failed(AppError::Api("refused".to_owned()))
        );
    }
}

#[test]
fn pagination_header_with_a_number() {
    assert_eq!(get_pagination_header(Some("8"), "x-total"), Ok(8));
    assert_eq!(get_pagination_header(Some("0"), "x-total"), Ok(0));
    assert_eq!(get_pagination_header(Some("300"), "x-total-pages"), Ok(300));
}

#[test]
fn pagination_header_that_is_missing_is_an_api_error() {
    assert_eq!(
        get_pagination_header(None, "x-total"),
        Err(AppError::Api("Header x-total not valid in GitLab response".to_owned()))
    );
}

#[test]
fn pagination_header_without_a_number_is_an_api_error() {
    for text in ["", "many", "1.5", "-3", "8 "] {
        assert_eq!(
            get_pagination_header(Some(text), "x-total"),
            Err(AppError::Api("Header x-total not valid in GitLab response".to_owned()))
        );
    }
    assert_eq!(
        get_pagination_header(Some("x"), "x-page"),
        Err(AppError::Api("Header x-page not valid in GitLab response".to_owned()))
    );
}

#[test]
fn page_of_a_response_has_its_variables_and_the_total() {
    assert_eq!(
        page_from_response(Some("8"), Ok(vec![variable("*"), variable("dev"), variable("All")])),
        Ok((vec![variable("All"), variable("dev"), variable("All")], 8))
    );
    assert_eq!(page_from_response(Some("0"), Ok(vec![])), Ok((vec![], 0)));
}

#[test]
fn page_of_a_response_without_total_is_an_api_error() {
    let invalid = Err(AppError::Api("Header x-total not valid in GitLab response".to_owned()));
    assert_eq!(page_from_response(None, Ok(vec![variable("*")])), invalid);
    assert_eq!(page_from_response(Some(""), Ok(vec![])), invalid);
    assert_eq!(page_from_response(Some("eight"), Ok(vec![])), invalid);
    assert_eq!(page_from_response(None, Err("bad body".to_owned())), invalid);
}

#[test]
fn page_of_a_response_with_a_body_that_was_not_read_is_that_error() {
    assert_eq!(
        page_from_response(Some("8"), Err("expected value at line 1".to_owned())),
        Err(AppError::Api("expected value at line 1".to_owned()))
    );
}

#[test]
fn variable_without_key_is_no_variable() {
    let mut sent = variable("*");
    assert!(sent.is_well_formed());
    sent.key = String::new();
    assert!(!sent.is_well_formed());
    assert_eq!(
        Lookup::found(&sent),
        Lookup::Failed(AppError::Api("Variable without key in GitLab response".to_owned()))
    );
    assert_eq!(
        page_from_response(Some("3"), Ok(vec![variable("*"), sent, variable("dev")])),
        Err(AppError::Api("Variable without key in GitLab response".to_owned()))
    );
}

#[test]
fn page_of_a_request_that_failed_is_an_api_error() {
    assert_eq!(
        page_failure("error sending request".to_owned()),
        Err(AppError::Api("error sending request".to_owned()))
    );
    assert_eq!(page_failure(String::new()), Err(AppError::Api(String::new())));
}
