//! The rules of each wire message.
use vstd::prelude::*;

use crate::proto::{
    Add, Branch, CheckoutTagRequest, CheckoutTagResponse, CommitAuthor, CommitRequest,
    CommitResponse, ConflictDiff, CreateBranchRequest, CreateBranchResponse,
    CreateRepositoryRequest, CreateRepositoryResponse, CreateTagRequest, CreateTagResponse,
    DeleteBranchRequest, DeleteBranchResponse, DeleteRepositoryRequest, DeleteRepositoryResponse,
    DeleteTagRequest, DeleteTagResponse, Diff, DiffFile, DiffPatch, DiffRequest, DiffResponse,
    ListBranchesRequest, ListBranchesResponse, ListRepositoriesRequest, ListRepositoriesResponse,
    ListTagsRequest, ListTagsResponse, Log, LogRequest, LogResponse, MergeRequest, MergeResponse,
    Move, Operation, Remove, Replace, Repository, RevertMergeRequest, RevertMergeResponse,
    StatusRequest, StatusResponse, Test,
};
use crate::validate::{
    check_member, check_nested, check_repeated, check_required_message, check_required_string,
    element, finish, first_runtime_error, nested, prefixed, repeated, required_message, required_string,
    validation_outcome, violations_view, FieldType, Validate, ValidationError, ValidationErrorView,
    Violation, ViolationView, lemma_nested_required, lemma_only_required_add,
    lemma_outcome_of_required, lemma_repeated_clean, lemma_required_parts, only_required,
    required_violation,
};

verus! {

impl Validate for ListRepositoriesRequest {
    open spec fn violations(&self) -> Seq<ViolationView> {
        seq![]
    }

    fn validate(&self) -> (r: Result<(), ValidationError>) {
        let violations: Vec<Violation> = Vec::new();
        assert(violations_view(violations@) =~= self.violations());
        finish(violations)
    }
}

impl Validate for ListRepositoriesResponse {
    open spec fn violations(&self) -> Seq<ViolationView> {
        repeated(self.repositories@, 1, "repositories"@)
    }

    fn validate(&self) -> (r: Result<(), ValidationError>) {
        let mut violations: Vec<Violation> = Vec::new();
        check_repeated(&mut violations, &self.repositories, 1, "repositories");
        assert(violations_view(violations@) =~= self.violations());
        finish(violations)
    }
}

impl Validate for CreateRepositoryRequest {
    open spec fn violations(&self) -> Seq<ViolationView> {
        required_string(self.namespace@, 1, "namespace"@)
    }

    fn validate(&self) -> (r: Result<(), ValidationError>) {
        let mut violations: Vec<Violation> = Vec::new();
        check_required_string(&mut violations, &self.namespace, 1, "namespace");
        assert(violations_view(violations@) =~= self.violations());
        finish(violations)
    }
}

impl Validate for CreateRepositoryResponse {
    open spec fn violations(&self) -> Seq<ViolationView> {
        nested(self.repository, 1, "repository"@)
    }

    fn validate(&self) -> (r: Result<(), ValidationError>) {
        let mut violations: Vec<Violation> = Vec::new();
        check_nested(&mut violations, &self.repository, 1, "repository");
        assert(violations_view(violations@) =~= self.violations());
        finish(violations)
    }
}

impl Validate for DeleteRepositoryRequest {
    open spec fn violations(&self) -> Seq<ViolationView> {
        required_string(self.namespace@, 1, "namespace"@)
    }

    fn validate(&self) -> (r: Result<(), ValidationError>) {
        let mut violations: Vec<Violation> = Vec::new();
        check_required_string(&mut violations, &self.namespace, 1, "namespace");
        assert(violations_view(violations@) =~= self.violations());
        finish(violations)
    }
}

impl Validate for DeleteRepositoryResponse {
    open spec fn violations(&self) -> Seq<ViolationView> {
        seq![]
    }

    fn validate(&self) -> (r: Result<(), ValidationError>) {
        let violations: Vec<Violation> = Vec::new();
        assert(violations_view(violations@) =~= self.violations());
        finish(violations)
    }
}

impl Validate for ListBranchesRequest {
    open spec fn violations(&self) -> Seq<ViolationView> {
        required_string(self.namespace@, 1, "namespace"@)
    }

    fn validate(&self) -> (r: Result<(), ValidationError>) {
        let mut violations: Vec<Violation> = Vec::new();
        check_required_string(&mut violations, &self.namespace, 1, "namespace");
        assert(violations_view(violations@) =~= self.violations());
        finish(violations)
    }
}

impl Validate for ListBranchesResponse {
    open spec fn violations(&self) -> Seq<ViolationView> {
        repeated(self.branches@, 1, "branches"@)
    }

    fn validate(&self) -> (r: Result<(), ValidationError>) {
        let mut violations: Vec<Violation> = Vec::new();
        check_repeated(&mut violations, &self.branches, 1, "branches");
        assert(violations_view(violations@) =~= self.violations());
        finish(violations)
    }
}

impl Validate for CreateBranchRequest {
    open spec fn violations(&self) -> Seq<ViolationView> {
        required_string(self.namespace@, 1, "namespace"@)
            + required_string(self.branch@, 2, "branch"@)
    }

    fn validate(&self) -> (r: Result<(), ValidationError>) {
        let mut violations: Vec<Violation> = Vec::new();
        check_required_string(&mut violations, &self.namespace, 1, "namespace");
        check_required_string(&mut violations, &self.branch, 2, "branch");
        assert(violations_view(violations@) =~= self.violations());
        finish(violations)
    }
}

impl Validate for CreateBranchResponse {
    open spec fn violations(&self) -> Seq<ViolationView> {
        required_message(self.branch is Some, 1, "branch"@)
            + nested(self.branch, 1, "branch"@)
    }

    fn validate(&self) -> (r: Result<(), ValidationError>) {
        let mut violations: Vec<Violation> = Vec::new();
        check_required_message(&mut violations, &self.branch, 1, "branch");
        check_nested(&mut violations, &self.branch, 1, "branch");
        assert(violations_view(violations@) =~= self.violations());
        finish(violations)
    }
}

impl Validate for DeleteBranchRequest {
    open spec fn violations(&self) -> Seq<ViolationView> {
        required_string(self.namespace@, 1, "namespace"@)
            + required_string(self.branch@, 2, "branch"@)
    }

    fn validate(&self) -> (r: Result<(), ValidationError>) {
        let mut violations: Vec<Violation> = Vec::new();
        check_required_string(&mut violations, &self.namespace, 1, "namespace");
        check_required_string(&mut violations, &self.branch, 2, "branch");
        assert(violations_view(violations@) =~= self.violations());
        finish(violations)
    }
}

impl Validate for DeleteBranchResponse {
    open spec fn violations(&self) -> Seq<ViolationView> {
        seq![]
    }

    fn validate(&self) -> (r: Result<(), ValidationError>) {
        let violations: Vec<Violation> = Vec::new();
        assert(violations_view(violations@) =~= self.violations());
        finish(violations)
    }
}

impl Validate for ListTagsRequest {
    open spec fn violations(&self) -> Seq<ViolationView> {
        required_string(self.namespace@, 1, "namespace"@)
    }

    fn validate(&self) -> (r: Result<(), ValidationError>) {
        let mut violations: Vec<Violation> = Vec::new();
        check_required_string(&mut violations, &self.namespace, 1, "namespace");
        assert(violations_view(violations@) =~= self.violations());
        finish(violations)
    }
}

impl Validate for ListTagsResponse {
    open spec fn violations(&self) -> Seq<ViolationView> {
        seq![]
    }

    fn validate(&self) -> (r: Result<(), ValidationError>) {
        let violations: Vec<Violation> = Vec::new();
        assert(violations_view(violations@) =~= self.violations());
        finish(violations)
    }
}

impl Validate for CreateTagRequest {
    open spec fn violations(&self) -> Seq<ViolationView> {
        required_string(self.namespace@, 1, "namespace"@)
            + required_string(self.name@, 2, "name"@)
            + required_string(self.message@, 4, "message"@)
            + required_message(self.author is Some, 6, "author"@)
            + nested(self.author, 6, "author"@)
    }

    fn validate(&self) -> (r: Result<(), ValidationError>) {
        let mut violations: Vec<Violation> = Vec::new();
        check_required_string(&mut violations, &self.namespace, 1, "namespace");
        check_required_string(&mut violations, &self.name, 2, "name");
        check_required_string(&mut violations, &self.message, 4, "message");
        check_required_message(&mut violations, &self.author, 6, "author");
        check_nested(&mut violations, &self.author, 6, "author");
        assert(violations_view(violations@) =~= self.violations());
        finish(violations)
    }
}

impl Validate for CreateTagResponse {
    open spec fn violations(&self) -> Seq<ViolationView> {
        seq![]
    }

    fn validate(&self) -> (r: Result<(), ValidationError>) {
        let violations: Vec<Violation> = Vec::new();
        assert(violations_view(violations@) =~= self.violations());
        finish(violations)
    }
}

impl Validate for DeleteTagRequest {
    open spec fn violations(&self) -> Seq<ViolationView> {
        required_string(self.namespace@, 1, "namespace"@)
            + required_string(self.name@, 2, "name"@)
    }

    fn validate(&self) -> (r: Result<(), ValidationError>) {
        let mut violations: Vec<Violation> = Vec::new();
        check_required_string(&mut violations, &self.namespace, 1, "namespace");
        check_required_string(&mut violations, &self.name, 2, "name");
        assert(violations_view(violations@) =~= self.violations());
        finish(violations)
    }
}

impl Validate for DeleteTagResponse {
    open spec fn violations(&self) -> Seq<ViolationView> {
        seq![]
    }

    fn validate(&self) -> (r: Result<(), ValidationError>) {
        let violations: Vec<Violation> = Vec::new();
        assert(violations_view(violations@) =~= self.violations());
        finish(violations)
    }
}

impl Validate for CheckoutTagRequest {
    open spec fn violations(&self) -> Seq<ViolationView> {
        required_string(self.namespace@, 1, "namespace"@)
            + required_string(self.name@, 2, "name"@)
    }

    fn validate(&self) -> (r: Result<(), ValidationError>) {
        let mut violations: Vec<Violation> = Vec::new();
        check_required_string(&mut violations, &self.namespace, 1, "namespace");
        check_required_string(&mut violations, &self.name, 2, "name");
        assert(violations_view(violations@) =~= self.violations());
        finish(violations)
    }
}

impl Validate for CheckoutTagResponse {
    open spec fn violations(&self) -> Seq<ViolationView> {
        required_string(self.path@, 1, "path"@)
    }

    fn validate(&self) -> (r: Result<(), ValidationError>) {
        let mut violations: Vec<Violation> = Vec::new();
        check_required_string(&mut violations, &self.path, 1, "path");
        assert(violations_view(violations@) =~= self.violations());
        finish(violations)
    }
}

impl Validate for CommitRequest {
    open spec fn violations(&self) -> Seq<ViolationView> {
        required_string(self.namespace@, 1, "namespace"@)
            + required_string(self.branch@, 2, "branch"@)
            + required_string(self.message@, 3, "message"@)
            + required_message(self.author is Some, 4, "author"@)
            + nested(self.author, 4, "author"@)
    }

    fn validate(&self) -> (r: Result<(), ValidationError>) {
        let mut violations: Vec<Violation> = Vec::new();
        check_required_string(&mut violations, &self.namespace, 1, "namespace");
        check_required_string(&mut violations, &self.branch, 2, "branch");
        check_required_string(&mut violations, &self.message, 3, "message");
        check_required_message(&mut violations, &self.author, 4, "author");
        check_nested(&mut violations, &self.author, 4, "author");
        assert(violations_view(violations@) =~= self.violations());
        finish(violations)
    }
}

impl Validate for CommitResponse {
    open spec fn violations(&self) -> Seq<ViolationView> {
        seq![]
    }

    fn validate(&self) -> (r: Result<(), ValidationError>) {
        let violations: Vec<Violation> = Vec::new();
        assert(violations_view(violations@) =~= self.violations());
        finish(violations)
    }
}

impl Validate for MergeRequest {
    /// A merge names its repository; the branches it joins are named by
    /// `source_branch` and `target_branch`, which carry no rule.
    open spec fn violations(&self) -> Seq<ViolationView> {
        required_string(self.namespace@, 1, "namespace"@)
    }

    fn validate(&self) -> (r: Result<(), ValidationError>) {
        let mut violations: Vec<Violation> = Vec::new();
        check_required_string(&mut violations, &self.namespace, 1, "namespace");
        assert(violations_view(violations@) =~= self.violations());
        finish(violations)
    }
}

impl Validate for MergeResponse {
    open spec fn violations(&self) -> Seq<ViolationView> {
        repeated(self.conflicts@, 2, "conflicts"@)
    }

    fn validate(&self) -> (r: Result<(), ValidationError>) {
        let mut violations: Vec<Violation> = Vec::new();
        check_repeated(&mut violations, &self.conflicts, 2, "conflicts");
        assert(violations_view(violations@) =~= self.violations());
        finish(violations)
    }
}

impl Validate for RevertMergeRequest {
    open spec fn violations(&self) -> Seq<ViolationView> {
        required_string(self.namespace@, 1, "namespace"@)
            + required_string(self.commit@, 2, "commit"@)
    }

    fn validate(&self) -> (r: Result<(), ValidationError>) {
        let mut violations: Vec<Violation> = Vec::new();
        check_required_string(&mut violations, &self.namespace, 1, "namespace");
        check_required_string(&mut violations, &self.commit, 2, "commit");
        assert(violations_view(violations@) =~= self.violations());
        finish(violations)
    }
}

impl Validate for RevertMergeResponse {
    open spec fn violations(&self) -> Seq<ViolationView> {
        seq![]
    }

    fn validate(&self) -> (r: Result<(), ValidationError>) {
        let violations: Vec<Violation> = Vec::new();
        assert(violations_view(violations@) =~= self.violations());
        finish(violations)
    }
}

impl Validate for LogRequest {
    open spec fn violations(&self) -> Seq<ViolationView> {
        required_string(self.namespace@, 1, "namespace"@)
    }

    fn validate(&self) -> (r: Result<(), ValidationError>) {
        let mut violations: Vec<Violation> = Vec::new();
        check_required_string(&mut violations, &self.namespace, 1, "namespace");
        assert(violations_view(violations@) =~= self.violations());
        finish(violations)
    }
}

impl Validate for LogResponse {
    open spec fn violations(&self) -> Seq<ViolationView> {
        repeated(self.logs@, 1, "logs"@)
    }

    fn validate(&self) -> (r: Result<(), ValidationError>) {
        let mut violations: Vec<Violation> = Vec::new();
        check_repeated(&mut violations, &self.logs, 1, "logs");
        assert(violations_view(violations@) =~= self.violations());
        finish(violations)
    }
}

impl Validate for DiffRequest {
    open spec fn violations(&self) -> Seq<ViolationView> {
        required_string(self.namespace@, 1, "namespace"@)
            + required_string(self.base_reference@, 2, "base_reference"@)
            + required_string(self.target_reference@, 3, "target_reference"@)
    }

    fn validate(&self) -> (r: Result<(), ValidationError>) {
        let mut violations: Vec<Violation> = Vec::new();
        check_required_string(&mut violations, &self.namespace, 1, "namespace");
        check_required_string(&mut violations, &self.base_reference, 2, "base_reference");
        check_required_string(&mut violations, &self.target_reference, 3, "target_reference");
        assert(violations_view(violations@) =~= self.violations());
        finish(violations)
    }
}

impl Validate for DiffResponse {
    open spec fn violations(&self) -> Seq<ViolationView> {
        nested(self.diff, 1, "diff"@)
    }

    fn validate(&self) -> (r: Result<(), ValidationError>) {
        let mut violations: Vec<Violation> = Vec::new();
        check_nested(&mut violations, &self.diff, 1, "diff");
        assert(violations_view(violations@) =~= self.violations());
        finish(violations)
    }
}

impl Validate for StatusRequest {
    open spec fn violations(&self) -> Seq<ViolationView> {
        required_string(self.namespace@, 1, "namespace"@)
    }

    fn validate(&self) -> (r: Result<(), ValidationError>) {
        let mut violations: Vec<Violation> = Vec::new();
        check_required_string(&mut violations, &self.namespace, 1, "namespace");
        assert(violations_view(violations@) =~= self.violations());
        finish(violations)
    }
}

impl Validate for StatusResponse {
    open spec fn violations(&self) -> Seq<ViolationView> {
        seq![]
    }

    fn validate(&self) -> (r: Result<(), ValidationError>) {
        let violations: Vec<Violation> = Vec::new();
        assert(violations_view(violations@) =~= self.violations());
        finish(violations)
    }
}

impl Validate for CommitAuthor {
    open spec fn violations(&self) -> Seq<ViolationView> {
        required_string(self.name@, 1, "name"@)
            + required_string(self.email@, 2, "email"@)
    }

    fn validate(&self) -> (r: Result<(), ValidationError>) {
        let mut violations: Vec<Violation> = Vec::new();
        check_required_string(&mut violations, &self.name, 1, "name");
        check_required_string(&mut violations, &self.email, 2, "email");
        assert(violations_view(violations@) =~= self.violations());
        finish(violations)
    }
}

impl Validate for Log {
    open spec fn violations(&self) -> Seq<ViolationView> {
        nested(self.author, 2, "author"@)
    }

    fn validate(&self) -> (r: Result<(), ValidationError>) {
        let mut violations: Vec<Violation> = Vec::new();
        check_nested(&mut violations, &self.author, 2, "author");
        assert(violations_view(violations@) =~= self.violations());
        finish(violations)
    }
}

impl Validate for Repository {
    open spec fn violations(&self) -> Seq<ViolationView> {
        seq![]
    }

    fn validate(&self) -> (r: Result<(), ValidationError>) {
        let violations: Vec<Violation> = Vec::new();
        assert(violations_view(violations@) =~= self.violations());
        finish(violations)
    }
}

impl Validate for Branch {
    open spec fn violations(&self) -> Seq<ViolationView> {
        seq![]
    }

    fn validate(&self) -> (r: Result<(), ValidationError>) {
        let violations: Vec<Violation> = Vec::new();
        assert(violations_view(violations@) =~= self.violations());
        finish(violations)
    }
}

impl Validate for Diff {
    open spec fn violations(&self) -> Seq<ViolationView> {
        repeated(self.files@, 1, "files"@)
    }

    fn validate(&self) -> (r: Result<(), ValidationError>) {
        let mut violations: Vec<Violation> = Vec::new();
        check_repeated(&mut violations, &self.files, 1, "files");
        assert(violations_view(violations@) =~= self.violations());
        finish(violations)
    }
}

impl Validate for DiffFile {
    open spec fn violations(&self) -> Seq<ViolationView> {
        repeated(self.patches@, 4, "patches"@)
    }

    fn validate(&self) -> (r: Result<(), ValidationError>) {
        let mut violations: Vec<Violation> = Vec::new();
        check_repeated(&mut violations, &self.patches, 4, "patches");
        assert(violations_view(violations@) =~= self.violations());
        finish(violations)
    }
}

impl Validate for DiffPatch {
    open spec fn violations(&self) -> Seq<ViolationView> {
        match self.operation {
            Some(Operation::Add(m)) => prefixed(validation_outcome(m.violations()), element(1, "add"@, FieldType::Message, None)),
            Some(Operation::Remove(m)) => prefixed(validation_outcome(m.violations()), element(2, "remove"@, FieldType::Message, None)),
            Some(Operation::Replace(m)) => prefixed(validation_outcome(m.violations()), element(3, "replace"@, FieldType::Message, None)),
            Some(Operation::Move(m)) => prefixed(validation_outcome(m.violations()), element(4, "move"@, FieldType::Message, None)),
            Some(Operation::Copy(m)) => prefixed(validation_outcome(m.violations()), element(5, "copy"@, FieldType::Message, None)),
            Some(Operation::Test(m)) => prefixed(validation_outcome(m.violations()), element(6, "test"@, FieldType::Message, None)),
            None => seq![],
        }
    }

    fn validate(&self) -> (r: Result<(), ValidationError>) {
        let mut violations: Vec<Violation> = Vec::new();
        match &self.operation {
            Some(Operation::Add(m)) => check_member(&mut violations, m, 1, "add"),
            Some(Operation::Remove(m)) => check_member(&mut violations, m, 2, "remove"),
            Some(Operation::Replace(m)) => check_member(&mut violations, m, 3, "replace"),
            Some(Operation::Move(m)) => check_member(&mut violations, m, 4, "move"),
            Some(Operation::Copy(m)) => check_member(&mut violations, m, 5, "copy"),
            Some(Operation::Test(m)) => check_member(&mut violations, m, 6, "test"),
            None => {},
        }
        assert(violations_view(violations@) =~= self.violations());
        finish(violations)
    }
}

impl Validate for Add {
    open spec fn violations(&self) -> Seq<ViolationView> {
        seq![]
    }

    fn validate(&self) -> (r: Result<(), ValidationError>) {
        let violations: Vec<Violation> = Vec::new();
        assert(violations_view(violations@) =~= self.violations());
        finish(violations)
    }
}

impl Validate for Remove {
    open spec fn violations(&self) -> Seq<ViolationView> {
        seq![]
    }

    fn validate(&self) -> (r: Result<(), ValidationError>) {
        let violations: Vec<Violation> = Vec::new();
        assert(violations_view(violations@) =~= self.violations());
        finish(violations)
    }
}

impl Validate for Replace {
    open spec fn violations(&self) -> Seq<ViolationView> {
        seq![]
    }

    fn validate(&self) -> (r: Result<(), ValidationError>) {
        let violations: Vec<Violation> = Vec::new();
        assert(violations_view(violations@) =~= self.violations());
        finish(violations)
    }
}

impl Validate for Move {
    open spec fn violations(&self) -> Seq<ViolationView> {
        seq![]
    }

    fn validate(&self) -> (r: Result<(), ValidationError>) {
        let violations: Vec<Violation> = Vec::new();
        assert(violations_view(violations@) =~= self.violations());
        finish(violations)
    }
}

impl Validate for crate::proto::Copy {
    open spec fn violations(&self) -> Seq<ViolationView> {
        seq![]
    }

    fn validate(&self) -> (r: Result<(), ValidationError>) {
        let violations: Vec<Violation> = Vec::new();
        assert(violations_view(violations@) =~= self.violations());
        finish(violations)
    }
}

impl Validate for Test {
    open spec fn violations(&self) -> Seq<ViolationView> {
        seq![]
    }

    fn validate(&self) -> (r: Result<(), ValidationError>) {
        let violations: Vec<Violation> = Vec::new();
        assert(violations_view(violations@) =~= self.violations());
        finish(violations)
    }
}

impl Validate for ConflictDiff {
    open spec fn violations(&self) -> Seq<ViolationView> {
        repeated(self.ours@, 2, "ours"@)
            + repeated(self.theirs@, 3, "theirs"@)
            + repeated(self.ours_to_theirs@, 4, "ours_to_theirs"@)
    }

    fn validate(&self) -> (r: Result<(), ValidationError>) {
        let mut violations: Vec<Violation> = Vec::new();
        check_repeated(&mut violations, &self.ours, 2, "ours");
        check_repeated(&mut violations, &self.theirs, 3, "theirs");
        check_repeated(&mut violations, &self.ours_to_theirs, 4, "ours_to_theirs");
        assert(violations_view(violations@) =~= self.violations());
        finish(violations)
    }
}

/// A request to create a repository is refused exactly when it names no
/// namespace, and then with the one violation that the namespace is
/// required.
pub proof fn create_repository_request_accepted(r: CreateRepositoryRequest)
    ensures
        validation_outcome(r.violations()) == if r.namespace@.len() == 0 {
            Err(ValidationErrorView {
                violations: seq![required_violation(1, "namespace"@, FieldType::String)],
                runtime_error: None,
            })
        } else {
            Ok::<(), ValidationErrorView>(())
        },
{
    lemma_required_parts(r.namespace@, true, 1, "namespace"@);
    lemma_outcome_of_required(r.violations());
}

/// A request to delete a repository is refused exactly when it names no
/// namespace, and then with the one violation that the namespace is
/// required.
pub proof fn delete_repository_request_accepted(r: DeleteRepositoryRequest)
    ensures
        validation_outcome(r.violations()) == if r.namespace@.len() == 0 {
            Err(ValidationErrorView {
                violations: seq![required_violation(1, "namespace"@, FieldType::String)],
                runtime_error: None,
            })
        } else {
            Ok::<(), ValidationErrorView>(())
        },
{
    lemma_required_parts(r.namespace@, true, 1, "namespace"@);
    lemma_outcome_of_required(r.violations());
}

/// A request to create a branch is accepted exactly when it names both a
/// namespace and a branch; otherwise each missing one is reported.
pub proof fn create_branch_request_accepted(r: CreateBranchRequest)
    ensures
        validation_outcome(r.violations()) is Ok <==> r.namespace@.len() > 0 && r.branch@.len() > 0,
        validation_outcome(r.violations()) matches Err(e) ==> e.violations.len() == (if r.namespace@.len()
            == 0 {
            1int
        } else {
            0int
        }) + (if r.branch@.len() == 0 {
            1int
        } else {
            0int
        }),
{
    lemma_required_parts(r.namespace@, true, 1, "namespace"@);
    lemma_required_parts(r.branch@, true, 2, "branch"@);
    lemma_only_required_add(required_string(r.namespace@, 1, "namespace"@), required_string(r.branch@, 2, "branch"@));
    lemma_outcome_of_required(r.violations());
}

/// A request to delete a branch is accepted exactly when it names both a
/// namespace and a branch.
pub proof fn delete_branch_request_accepted(r: DeleteBranchRequest)
    ensures
        validation_outcome(r.violations()) is Ok <==> r.namespace@.len() > 0 && r.branch@.len() > 0,
{
    lemma_required_parts(r.namespace@, true, 1, "namespace"@);
    lemma_required_parts(r.branch@, true, 2, "branch"@);
    lemma_only_required_add(required_string(r.namespace@, 1, "namespace"@), required_string(r.branch@, 2, "branch"@));
    lemma_outcome_of_required(r.violations());
}

/// An author is accepted exactly when it has both a name and an email.
pub proof fn commit_author_accepted(a: CommitAuthor)
    ensures
        only_required(a.violations()),
        a.violations().len() == 0 <==> a.name@.len() > 0 && a.email@.len() > 0,
        validation_outcome(a.violations()) is Ok <==> a.name@.len() > 0 && a.email@.len() > 0,
{
    lemma_required_parts(a.name@, true, 1, "name"@);
    lemma_required_parts(a.email@, true, 2, "email"@);
    lemma_only_required_add(required_string(a.name@, 1, "name"@), required_string(a.email@, 2, "email"@));
    lemma_outcome_of_required(a.violations());
}

/// Whether an optional author is present with both a name and an email.
pub open spec fn complete_author(author: Option<CommitAuthor>) -> bool {
    author matches Some(a) && a.name@.len() > 0 && a.email@.len() > 0
}

/// A request to create a tag is accepted exactly when it names a namespace,
/// a tag name and a message, and carries an author with a name and an email.
pub proof fn create_tag_request_accepted(r: CreateTagRequest)
    ensures
        validation_outcome(r.violations()) is Ok <==> r.namespace@.len() > 0 && r.name@.len() > 0
            && r.message@.len() > 0 && complete_author(r.author),
{
    lemma_required_parts(r.namespace@, r.author is Some, 1, "namespace"@);
    lemma_required_parts(r.name@, r.author is Some, 2, "name"@);
    lemma_required_parts(r.message@, r.author is Some, 4, "message"@);
    if let Some(a) = r.author {
        commit_author_accepted(a);
    }
    lemma_nested_required(r.author, 6, "author"@);
    let p1 = required_string(r.namespace@, 1, "namespace"@);
    let p2 = required_string(r.name@, 2, "name"@);
    let p3 = required_string(r.message@, 4, "message"@);
    let p4 = required_message(r.author is Some, 6, "author"@);
    let p5 = nested(r.author, 6, "author"@);
    lemma_only_required_add(p1, p2);
    lemma_only_required_add(p1 + p2, p3);
    lemma_only_required_add(p1 + p2 + p3, p4);
    lemma_only_required_add(p1 + p2 + p3 + p4, p5);
    lemma_outcome_of_required(r.violations());
}

/// A commit request is accepted exactly when it names a namespace, a branch
/// and a message, and carries an author with a name and an email.
pub proof fn commit_request_accepted(r: CommitRequest)
    ensures
        validation_outcome(r.violations()) is Ok <==> r.namespace@.len() > 0 && r.branch@.len() > 0
            && r.message@.len() > 0 && complete_author(r.author),
{
    lemma_required_parts(r.namespace@, r.author is Some, 1, "namespace"@);
    lemma_required_parts(r.branch@, r.author is Some, 2, "branch"@);
    lemma_required_parts(r.message@, r.author is Some, 3, "message"@);
    if let Some(a) = r.author {
        commit_author_accepted(a);
    }
    lemma_nested_required(r.author, 4, "author"@);
    let p1 = required_string(r.namespace@, 1, "namespace"@);
    let p2 = required_string(r.branch@, 2, "branch"@);
    let p3 = required_string(r.message@, 3, "message"@);
    let p4 = required_message(r.author is Some, 4, "author"@);
    let p5 = nested(r.author, 4, "author"@);
    lemma_only_required_add(p1, p2);
    lemma_only_required_add(p1 + p2, p3);
    lemma_only_required_add(p1 + p2 + p3, p4);
    lemma_only_required_add(p1 + p2 + p3 + p4, p5);
    lemma_outcome_of_required(r.violations());
}

/// A patch operation breaks no rule.
pub proof fn diff_patch_clean(p: DiffPatch)
    ensures
        p.violations().len() == 0,
{
    assert(first_runtime_error(Seq::<ViolationView>::empty()) is None);
}

/// A changed file breaks no rule, whatever its patches.
pub proof fn diff_file_clean(f: DiffFile)
    ensures
        f.violations().len() == 0,
{
    assert forall|i: int| 0 <= i < f.patches@.len() implies (#[trigger] f.patches@[i]).violations().len() == 0 by {
        diff_patch_clean(f.patches@[i]);
    }
    lemma_repeated_clean(f.patches@, 4, "patches"@);
}

/// A conflict breaks no rule, whatever its patches.
pub proof fn conflict_diff_clean(c: ConflictDiff)
    ensures
        c.violations().len() == 0,
{
    assert forall|i: int| 0 <= i < c.ours@.len() implies (#[trigger] c.ours@[i]).violations().len() == 0 by {
        diff_patch_clean(c.ours@[i]);
    }
    assert forall|i: int| 0 <= i < c.theirs@.len() implies (#[trigger] c.theirs@[i]).violations().len() == 0 by {
        diff_patch_clean(c.theirs@[i]);
    }
    assert forall|i: int|
        0 <= i < c.ours_to_theirs@.len() implies (#[trigger] c.ours_to_theirs@[i]).violations().len() == 0 by {
        diff_patch_clean(c.ours_to_theirs@[i]);
    }
    lemma_repeated_clean(c.ours@, 2, "ours"@);
    lemma_repeated_clean(c.theirs@, 3, "theirs"@);
    lemma_repeated_clean(c.ours_to_theirs@, 4, "ours_to_theirs"@);
}

/// Every reply to a diff request passes the message rules.
pub proof fn diff_response_accepted(r: DiffResponse)
    ensures
        validation_outcome(r.violations()) is Ok,
{
    if let Some(d) = r.diff {
        assert forall|i: int| 0 <= i < d.files@.len() implies (#[trigger] d.files@[i]).violations().len() == 0 by {
            diff_file_clean(d.files@[i]);
        }
        lemma_repeated_clean(d.files@, 1, "files"@);
        assert(d.violations() =~= Seq::<ViolationView>::empty());
    }
    assert(first_runtime_error(Seq::<ViolationView>::empty()) is None);
    assert(r.violations() =~= Seq::<ViolationView>::empty());
}

/// Every reply to a merge request passes the message rules.
pub proof fn merge_response_accepted(r: MergeResponse)
    ensures
        validation_outcome(r.violations()) is Ok,
{
    assert forall|i: int| 0 <= i < r.conflicts@.len() implies (#[trigger] r.conflicts@[i]).violations().len() == 0 by {
        conflict_diff_clean(r.conflicts@[i]);
    }
    lemma_repeated_clean(r.conflicts@, 2, "conflicts"@);
    assert(first_runtime_error(Seq::<ViolationView>::empty()) is None);
}

/// A request for the branches is accepted exactly when it names a namespace.
pub proof fn list_branches_request_accepted(r: ListBranchesRequest)
    ensures
        validation_outcome(r.violations()) is Ok <==> r.namespace@.len() > 0,
{
    lemma_required_parts(r.namespace@, true, 1, "namespace"@);
    lemma_outcome_of_required(r.violations());
}

/// A request for the tags is accepted exactly when it names a namespace.
pub proof fn list_tags_request_accepted(r: ListTagsRequest)
    ensures
        validation_outcome(r.violations()) is Ok <==> r.namespace@.len() > 0,
{
    lemma_required_parts(r.namespace@, true, 1, "namespace"@);
    lemma_outcome_of_required(r.violations());
}

/// A merge request is accepted exactly when it names a namespace, whatever
/// branches and dry-run flag it holds.
pub proof fn merge_request_accepted(r: MergeRequest)
    ensures
        validation_outcome(r.violations()) is Ok <==> r.namespace@.len() > 0,
{
    lemma_required_parts(r.namespace@, true, 1, "namespace"@);
    lemma_outcome_of_required(r.violations());
}

/// A log request is accepted exactly when it names a namespace, whatever
/// source branch, target branch and order it holds.
pub proof fn log_request_accepted(r: LogRequest)
    ensures
        validation_outcome(r.violations()) is Ok <==> r.namespace@.len() > 0,
{
    lemma_required_parts(r.namespace@, true, 1, "namespace"@);
    lemma_outcome_of_required(r.violations());
}

/// A status request is accepted exactly when it names a namespace, whatever
/// branches it holds.
pub proof fn status_request_accepted(r: StatusRequest)
    ensures
        validation_outcome(r.violations()) is Ok <==> r.namespace@.len() > 0,
{
    lemma_required_parts(r.namespace@, true, 1, "namespace"@);
    lemma_outcome_of_required(r.violations());
}

/// A request to delete a tag is accepted exactly when it names both a
/// namespace and a tag.
pub proof fn delete_tag_request_accepted(r: DeleteTagRequest)
    ensures
        validation_outcome(r.violations()) is Ok <==> r.namespace@.len() > 0 && r.name@.len() > 0,
{
    lemma_required_parts(r.namespace@, true, 1, "namespace"@);
    lemma_required_parts(r.name@, true, 2, "name"@);
    lemma_only_required_add(required_string(r.namespace@, 1, "namespace"@), required_string(r.name@, 2, "name"@));
    lemma_outcome_of_required(r.violations());
}

/// A request to check out a tag is accepted exactly when it names both a
/// namespace and a tag.
pub proof fn checkout_tag_request_accepted(r: CheckoutTagRequest)
    ensures
        validation_outcome(r.violations()) is Ok <==> r.namespace@.len() > 0 && r.name@.len() > 0,
{
    lemma_required_parts(r.namespace@, true, 1, "namespace"@);
    lemma_required_parts(r.name@, true, 2, "name"@);
    lemma_only_required_add(required_string(r.namespace@, 1, "namespace"@), required_string(r.name@, 2, "name"@));
    lemma_outcome_of_required(r.violations());
}

/// A request to revert a merge is accepted exactly when it names both a
/// namespace and a commit.
pub proof fn revert_merge_request_accepted(r: RevertMergeRequest)
    ensures
        validation_outcome(r.violations()) is Ok <==> r.namespace@.len() > 0 && r.commit@.len() > 0,
{
    lemma_required_parts(r.namespace@, true, 1, "namespace"@);
    lemma_required_parts(r.commit@, true, 2, "commit"@);
    lemma_only_required_add(required_string(r.namespace@, 1, "namespace"@), required_string(r.commit@, 2, "commit"@));
    lemma_outcome_of_required(r.violations());
}

/// A diff request is accepted exactly when it names a namespace and both
/// references.
pub proof fn diff_request_accepted(r: DiffRequest)
    ensures
        validation_outcome(r.violations()) is Ok <==> r.namespace@.len() > 0 && r.base_reference@.len() > 0
            && r.target_reference@.len() > 0,
{
    lemma_required_parts(r.namespace@, true, 1, "namespace"@);
    lemma_required_parts(r.base_reference@, true, 2, "base_reference"@);
    lemma_required_parts(r.target_reference@, true, 3, "target_reference"@);
    let a = required_string(r.namespace@, 1, "namespace"@);
    let b = required_string(r.base_reference@, 2, "base_reference"@);
    let c = required_string(r.target_reference@, 3, "target_reference"@);
    lemma_only_required_add(a, b);
    lemma_only_required_add(a + b, c);
    lemma_outcome_of_required(r.violations());
}

} // verus!
