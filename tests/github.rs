use mergequeue_github::{
    Event, GhOperation, GitHub, GitHubAction, Head, LookupFailure, PullRequest,
    RepositoryFormatError,
};

fn action(repository: &str, base_ref: Option<&str>) -> GitHubAction {
    GitHubAction::new(
        repository.to_string(),
        base_ref.map(|b| b.to_string()),
        Event {
            pull_request: PullRequest {
                number: 42,
                head: Head { sha: "abc123".to_string() },
                body: Some("fix bug".to_string()),
            },
        },
    )
}

#[test]
fn payload_with_base_ref() {
    let a = action("acme/widgets", Some("develop"));
    assert_eq!(a.repo_owner(), Ok("acme".to_string()));
    assert_eq!(a.repo_name(), Ok("widgets".to_string()));
    assert_eq!(a.base_branch(), "develop");
    assert_eq!(a.event.pull_request.number, 42);
    assert_eq!(a.event.pull_request.head.sha, "abc123");
    assert_eq!(a.event.pull_request.body.as_deref(), Some("fix bug"));
}

#[test]
fn payload_without_base_ref_defaults_to_main() {
    let a = action("acme/widgets", None);
    assert_eq!(a.base_branch(), "main");
}

#[test]
fn identifier_without_slash_has_no_owner() {
    let a = action("justonename", None);
    assert_eq!(a.repo_owner(), Err(RepositoryFormatError::MissingSeparator));
    assert_eq!(a.repo_name(), Err(RepositoryFormatError::MissingSeparator));
}

#[test]
fn empty_identifier_has_no_owner() {
    let a = action("", None);
    assert!(a.repo_owner().is_err());
    assert!(a.repo_name().is_err());
}

#[test]
fn extra_segments_are_ignored() {
    let a = action("acme/widgets/extra", None);
    assert_eq!(a.repo_owner(), Ok("acme".to_string()));
    assert_eq!(a.repo_name(), Ok("widgets".to_string()));
}

#[test]
fn empty_name_after_slash() {
    let a = action("acme/", None);
    assert_eq!(a.repo_owner(), Ok("acme".to_string()));
    assert_eq!(a.repo_name(), Ok(String::new()));
}

#[test]
fn non_ascii_segments() {
    let a = action("zoë/wïdgets", None);
    assert_eq!(a.repo_owner(), Ok("zoë".to_string()));
    assert_eq!(a.repo_name(), Ok("wïdgets".to_string()));
}

#[test]
fn comment_request() {
    let r = GitHub::comment("17", "looks good", "tok");
    assert_eq!(r.operation, GhOperation::Comment);
    assert_eq!(r.args, vec!["pr", "comment", "17", "--body", "looks good"]);
    assert_eq!(r.token, "tok");
}

#[test]
fn close_request() {
    let r = GitHub::close("17", "tok");
    assert_eq!(r.operation, GhOperation::Close);
    assert_eq!(r.args, vec!["pr", "close", "17"]);
    assert_eq!(r.token, "tok");
}

#[test]
fn add_label_request() {
    let r = GitHub::add_label("17", "merged", "tok");
    assert_eq!(r.operation, GhOperation::AddLabel);
    assert_eq!(r.args, vec!["pr", "edit", "17", "--add-label", "merged"]);
    assert_eq!(r.token, "tok");
}

#[test]
fn view_base_branch_request() {
    let r = GitHub::view_base_branch("17", "tok");
    assert_eq!(r.operation, GhOperation::ViewBaseBranch);
    assert_eq!(r.args, vec!["pr", "view", "17", "--json", "baseRefName"]);
    assert_eq!(r.token, "tok");
}

#[test]
fn base_branch_from_reply() {
    let view: Result<String, String> = Ok("{\"baseRefName\":\"release/2.0\"}".to_string());
    assert_eq!(GitHub::get_pr_base_branch(&view), "release/2.0");
    assert!(matches!(GitHub::lookup_base_branch(&view), Ok(b) if b == "release/2.0"));
}

#[test]
fn base_branch_when_client_fails() {
    let view: Result<String, String> = Err("gh: not authenticated".to_string());
    assert_eq!(GitHub::get_pr_base_branch(&view), "main");
    assert!(matches!(
        GitHub::lookup_base_branch(&view),
        Err(LookupFailure::CommandFailed(m)) if m == "gh: not authenticated"
    ));
}

#[test]
fn base_branch_when_reply_is_not_json() {
    let view: Result<String, String> = Ok("baseRefName: develop".to_string());
    assert_eq!(GitHub::get_pr_base_branch(&view), "main");
    assert!(matches!(
        GitHub::lookup_base_branch(&view),
        Err(LookupFailure::InvalidJson(_))
    ));
}

#[test]
fn base_branch_when_field_is_missing() {
    let view: Result<String, String> = Ok("{\"headRefName\":\"feature\"}".to_string());
    assert_eq!(GitHub::get_pr_base_branch(&view), "main");
    assert!(matches!(
        GitHub::lookup_base_branch(&view),
        Err(LookupFailure::MissingBaseRefName)
    ));
}

#[test]
fn base_branch_when_field_is_not_a_string() {
    let view: Result<String, String> = Ok("{\"baseRefName\":7}".to_string());
    assert_eq!(GitHub::get_pr_base_branch(&view), "main");
    assert!(matches!(
        GitHub::lookup_base_branch(&view),
        Err(LookupFailure::MissingBaseRefName)
    ));
}

#[test]
fn base_branch_when_reply_is_not_an_object() {
    let view: Result<String, String> = Ok("[\"develop\"]".to_string());
    assert_eq!(GitHub::get_pr_base_branch(&view), "main");
}

#[test]
fn branch_or_default_keeps_found_branch() {
    assert_eq!(GitHub::branch_or_default(Ok("develop".to_string())), "develop");
    assert_eq!(
        GitHub::branch_or_default(Err(LookupFailure::MissingBaseRefName)),
        "main"
    );
}
