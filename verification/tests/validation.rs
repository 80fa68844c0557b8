use gitproxy::config::default_port;
use gitproxy::proto::{Diff, DiffFile, DiffResponse, DiffStatus, MergeRequest, MergeResponse, Remove};
use gitproxy::proto::{
    Add, Branch, CommitAuthor, CommitRequest, ConflictDiff, CreateBranchRequest,
    CreateRepositoryRequest, CreateTagRequest, DeleteRepositoryRequest, DiffPatch,
    ListBranchesResponse, Operation,
};
use gitproxy::validate::{
    finish, new_required_violation, FieldType, Subscript, Validate, ValidationError, Violation,
};

fn author(name: &str, email: &str) -> CommitAuthor {
    CommitAuthor { name: name.to_owned(), email: email.to_owned() }
}

fn field_names(v: &Violation) -> Vec<String> {
    v.field.iter().map(|e| e.field_name.clone().unwrap()).collect()
}

#[test]
fn default_port_is_3000() {
    assert_eq!(default_port(), 3000);
}

#[test]
fn create_repository_empty_namespace_is_refused() {
    let err = CreateRepositoryRequest { namespace: "".to_owned() }.validate().unwrap_err();
    assert!(err.runtime_error.is_none());
    assert_eq!(err.violations.len(), 1);
    let v = &err.violations[0];
    assert_eq!(field_names(v), vec!["namespace".to_owned()]);
    assert_eq!(v.field[0].field_number, Some(1));
    assert_eq!(v.field[0].field_type, Some(FieldType::String));
    assert_eq!(v.rule_id, "required");
    assert_eq!(v.message, "value is required");
    assert_eq!(v.rule[0].field_number, Some(25));
    assert_eq!(v.rule[0].field_name.as_deref(), Some("required"));
    assert!(!v.for_key);
}

#[test]
fn delete_repository_empty_namespace_is_refused() {
    let err = DeleteRepositoryRequest { namespace: "".to_owned() }.validate().unwrap_err();
    assert_eq!(err.violations.len(), 1);
    assert_eq!(field_names(&err.violations[0]), vec!["namespace".to_owned()]);
    assert_eq!(err.violations[0].message, "value is required");
}

#[test]
fn named_repository_is_accepted() {
    assert!(CreateRepositoryRequest { namespace: "test".to_owned() }.validate().is_ok());
    assert!(DeleteRepositoryRequest { namespace: "test".to_owned() }.validate().is_ok());
}

#[test]
fn create_branch_reports_each_missing_field_in_order() {
    let err = CreateBranchRequest { namespace: "".to_owned(), branch: "".to_owned() }
        .validate()
        .unwrap_err();
    assert_eq!(err.violations.len(), 2);
    assert_eq!(field_names(&err.violations[0]), vec!["namespace".to_owned()]);
    assert_eq!(field_names(&err.violations[1]), vec!["branch".to_owned()]);
    assert_eq!(err.violations[1].field[0].field_number, Some(2));
    let ok = CreateBranchRequest { namespace: "test".to_owned(), branch: "my-branch".to_owned() };
    assert!(ok.validate().is_ok());
}

#[test]
fn create_tag_without_author_is_refused() {
    let req = CreateTagRequest {
        namespace: "test".to_owned(),
        name: "v1.0.0".to_owned(),
        commit: "abc".to_owned(),
        message: "My first tag".to_owned(),
        overwrite: false,
        author: None,
    };
    let err = req.validate().unwrap_err();
    assert_eq!(err.violations.len(), 1);
    assert_eq!(field_names(&err.violations[0]), vec!["author".to_owned()]);
    assert_eq!(err.violations[0].field[0].field_number, Some(6));
    assert_eq!(err.violations[0].field[0].field_type, Some(FieldType::Message));
}

#[test]
fn create_tag_with_incomplete_author_names_the_nested_field() {
    let req = CreateTagRequest {
        namespace: "test".to_owned(),
        name: "v1.0.0".to_owned(),
        commit: "abc".to_owned(),
        message: "My first tag".to_owned(),
        overwrite: false,
        author: Some(author("bob", "")),
    };
    let err = req.validate().unwrap_err();
    assert_eq!(err.violations.len(), 1);
    let v = &err.violations[0];
    assert_eq!(field_names(v), vec!["author".to_owned(), "email".to_owned()]);
    assert_eq!(v.field[0].field_number, Some(6));
    assert_eq!(v.field[1].field_number, Some(2));
    assert!(v.field[0].subscript.is_none());
    let good = CreateTagRequest { author: Some(author("bob", "bob@example.com")), ..req };
    assert!(good.validate().is_ok());
}

#[test]
fn commit_request_checks_message_and_author() {
    let req = CommitRequest {
        namespace: "test".to_owned(),
        branch: "my-branch".to_owned(),
        message: "".to_owned(),
        author: Some(author("", "test@example.com")),
        files: Vec::new(),
    };
    let err = req.validate().unwrap_err();
    assert_eq!(err.violations.len(), 2);
    assert_eq!(field_names(&err.violations[0]), vec!["message".to_owned()]);
    assert_eq!(err.violations[0].field[0].field_number, Some(3));
    assert_eq!(field_names(&err.violations[1]), vec!["author".to_owned(), "name".to_owned()]);
    assert_eq!(err.violations[1].field[0].field_number, Some(4));
}

#[test]
fn repeated_messages_without_rules_are_accepted() {
    let resp = ListBranchesResponse {
        branches: vec![Branch { name: "a".to_owned() }, Branch { name: "".to_owned() }],
    };
    assert!(resp.validate().is_ok());
    let patch = DiffPatch {
        operation: Some(Operation::Add(Add { path: "/a".to_owned(), value: "1".to_owned() })),
    };
    assert!(patch.validate().is_ok());
    let conflict = ConflictDiff {
        path: "f".to_owned(),
        ours: vec![patch],
        theirs: Vec::new(),
        ours_to_theirs: Vec::new(),
        contents: Vec::new(),
    };
    assert!(conflict.validate().is_ok());
}

#[test]
fn finish_reports_an_evaluation_failure_alone() {
    let mut vs = vec![new_required_violation(1, "namespace", FieldType::String)];
    let mut failure = new_required_violation(2, "branch", FieldType::String);
    failure.rule_id = "__cel_runtime_error__".to_owned();
    failure.message = "division by zero".to_owned();
    vs.push(failure);
    let err: ValidationError = finish(vs).unwrap_err();
    assert!(err.violations.is_empty());
    assert_eq!(err.runtime_error.as_deref(), Some("division by zero"));
}

#[test]
fn finish_accepts_nothing_broken() {
    assert!(finish(Vec::new()).is_ok());
    let err = finish(vec![new_required_violation(1, "path", FieldType::String)]).unwrap_err();
    assert_eq!(err.violations.len(), 1);
    assert!(err.runtime_error.is_none());
    assert!(matches!(err.violations[0].field[0].subscript, None::<Subscript>));
}

#[test]
fn diff_and_merge_replies_pass_the_rules() {
    let patch = DiffPatch { operation: Some(Operation::Remove(Remove { path: "".to_owned() })) };
    let file = DiffFile { status: DiffStatus::Deleted, old_path: None, new_path: None, patches: vec![patch] };
    let reply = DiffResponse { diff: Some(Diff { files: vec![file] }) };
    assert!(reply.validate().is_ok());
    let conflict = ConflictDiff {
        path: "".to_owned(),
        ours: vec![DiffPatch { operation: None }],
        theirs: Vec::new(),
        ours_to_theirs: Vec::new(),
        contents: Vec::new(),
    };
    let merge = MergeResponse { commit: None, conflicts: vec![conflict] };
    assert!(merge.validate().is_ok());
}

#[test]
fn merge_request_naming_source_and_target_is_accepted() {
    let req = MergeRequest {
        namespace: "test".to_owned(),
        branch: "".to_owned(),
        source_branch: "my-branch".to_owned(),
        target_branch: "main".to_owned(),
        dry_run: false,
    };
    assert!(req.validate().is_ok());
}

#[test]
fn merge_request_without_namespace_is_refused() {
    let req = MergeRequest {
        namespace: "".to_owned(),
        branch: "".to_owned(),
        source_branch: "my-branch".to_owned(),
        target_branch: "main".to_owned(),
        dry_run: false,
    };
    let err = req.validate().unwrap_err();
    assert_eq!(err.violations.len(), 1);
    assert_eq!(field_names(&err.violations[0]), vec!["namespace".to_owned()]);
}
