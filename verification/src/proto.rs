//! The messages of the service's wire protocol, as plain values.
use vstd::prelude::*;

verus! {

/// A point in time: seconds since the Unix epoch and a sub-second part.
#[derive(Debug)]
pub struct Timestamp {
    pub seconds: i64,
    pub nanos: i32,
}

/// Who made a commit or a tag.
#[derive(Debug)]
pub struct CommitAuthor {
    pub name: String,
    pub email: String,
}

/// A file and its contents.
#[derive(Debug)]
pub struct File {
    pub path: String,
    pub contents: Vec<u8>,
}

/// A repository and the commit its primary branch points at.
#[derive(Debug)]
pub struct Repository {
    pub namespace: String,
    pub head_commit: String,
}

/// A branch of a repository.
#[derive(Debug)]
pub struct Branch {
    pub name: String,
}

/// A tag of a repository.
#[derive(Debug)]
pub struct Tag {
    pub name: String,
    pub commit: String,
    pub time: Option<Timestamp>,
    pub author: Option<CommitAuthor>,
}

/// One entry of a commit log.
#[derive(Debug)]
pub struct Log {
    pub message: String,
    pub author: Option<CommitAuthor>,
    pub commit: String,
    pub time: Option<Timestamp>,
}

/// JSON patch `add` operation.
#[derive(Debug)]
pub struct Add {
    pub path: String,
    pub value: String,
}

/// JSON patch `remove` operation.
#[derive(Debug)]
pub struct Remove {
    pub path: String,
}

/// JSON patch `replace` operation.
#[derive(Debug)]
pub struct Replace {
    pub path: String,
    pub value: String,
}

/// JSON patch `move` operation.
#[derive(Debug)]
pub struct Move {
    pub from: String,
    pub path: String,
}

/// JSON patch `copy` operation.
#[derive(Debug)]
pub struct Copy {
    pub from: String,
    pub path: String,
}

/// JSON patch `test` operation.
#[derive(Debug)]
pub struct Test {
    pub path: String,
    pub value: String,
}

/// The operation that a [`DiffPatch`] carries.
#[derive(Debug)]
pub enum Operation {
    Add(Add),
    Remove(Remove),
    Replace(Replace),
    Move(Move),
    Copy(Copy),
    Test(Test),
}

/// One JSON patch operation.
#[derive(Debug)]
pub struct DiffPatch {
    pub operation: Option<Operation>,
}

/// How a file changed between two trees.
#[derive(Clone, Copy, Debug, PartialEq, Eq, Structural)]
pub enum DiffStatus {
    Unmodified,
    Added,
    Deleted,
    Modified,
    Renamed,
    Copied,
    Ignored,
    Untracked,
    Typechange,
    Unreadable,
    Conflicted,
}

/// A changed file and the JSON patch between its two versions.
#[derive(Debug)]
pub struct DiffFile {
    pub status: DiffStatus,
    pub old_path: Option<String>,
    pub new_path: Option<String>,
    pub patches: Vec<DiffPatch>,
}

/// The changed files between two references.
#[derive(Debug)]
pub struct Diff {
    pub files: Vec<DiffFile>,
}

/// A file that could not be merged, with the changes of each side.
#[derive(Debug)]
pub struct ConflictDiff {
    pub path: String,
    pub ours: Vec<DiffPatch>,
    pub theirs: Vec<DiffPatch>,
    pub ours_to_theirs: Vec<DiffPatch>,
    pub contents: Vec<u8>,
}

#[derive(Debug)]
pub struct ListRepositoriesRequest {}

#[derive(Debug)]
pub struct ListRepositoriesResponse {
    pub repositories: Vec<Repository>,
}

#[derive(Debug)]
pub struct CreateRepositoryRequest {
    pub namespace: String,
}

#[derive(Debug)]
pub struct CreateRepositoryResponse {
    pub repository: Option<Repository>,
}

#[derive(Debug)]
pub struct DeleteRepositoryRequest {
    pub namespace: String,
}

#[derive(Debug)]
pub struct DeleteRepositoryResponse {}

#[derive(Debug)]
pub struct ListBranchesRequest {
    pub namespace: String,
}

#[derive(Debug)]
pub struct ListBranchesResponse {
    pub branches: Vec<Branch>,
}

#[derive(Debug)]
pub struct CreateBranchRequest {
    pub namespace: String,
    pub branch: String,
}

#[derive(Debug)]
pub struct CreateBranchResponse {
    pub branch: Option<Branch>,
}

#[derive(Debug)]
pub struct DeleteBranchRequest {
    pub namespace: String,
    pub branch: String,
}

#[derive(Debug)]
pub struct DeleteBranchResponse {}

#[derive(Debug)]
pub struct ListTagsRequest {
    pub namespace: String,
}

#[derive(Debug)]
pub struct ListTagsResponse {
    pub tags: Vec<Tag>,
}

#[derive(Debug)]
pub struct CreateTagRequest {
    pub namespace: String,
    pub name: String,
    pub commit: String,
    pub message: String,
    pub overwrite: bool,
    pub author: Option<CommitAuthor>,
}

#[derive(Debug)]
pub struct CreateTagResponse {
    pub tag: Option<Tag>,
}

#[derive(Debug)]
pub struct DeleteTagRequest {
    pub namespace: String,
    pub name: String,
}

#[derive(Debug)]
pub struct DeleteTagResponse {}

#[derive(Debug)]
pub struct CheckoutTagRequest {
    pub namespace: String,
    pub name: String,
}

#[derive(Debug)]
pub struct CheckoutTagResponse {
    pub path: String,
}

#[derive(Debug)]
pub struct CommitRequest {
    pub namespace: String,
    pub branch: String,
    pub message: String,
    pub author: Option<CommitAuthor>,
    pub files: Vec<File>,
}

#[derive(Debug)]
pub struct CommitResponse {
    pub commit: String,
}

#[derive(Debug)]
pub struct MergeRequest {
    pub namespace: String,
    pub branch: String,
    pub source_branch: String,
    pub target_branch: String,
    pub dry_run: bool,
}

#[derive(Debug)]
pub struct MergeResponse {
    pub commit: Option<String>,
    pub conflicts: Vec<ConflictDiff>,
}

/// Which side of a merge commit a revert keeps, as a request names it.
#[derive(Clone, Copy, Debug, PartialEq, Eq, Structural)]
pub enum RevertStrategy {
    Unspecified,
    KeepMainline,
    KeepOther,
}

#[derive(Debug)]
pub struct RevertResponse {
    pub commit: Option<String>,
    pub conflicts: Vec<ConflictDiff>,
}

#[derive(Debug)]
pub struct RevertMergeRequest {
    pub namespace: String,
    pub commit: String,
}

#[derive(Debug)]
pub struct RevertMergeResponse {}

/// Order of a log, as a request names it.
#[derive(Clone, Copy, Debug, PartialEq, Eq, Structural)]
pub enum Order {
    Unspecified,
    Normal,
    Reverse,
}

#[derive(Debug)]
pub struct LogRequest {
    pub namespace: String,
    pub source_branch: String,
    pub target_branch: Option<String>,
    /// The order asked for; `None` where the request holds a value that this
    /// version does not know.
    pub order: Option<Order>,
}

#[derive(Debug)]
pub struct LogResponse {
    pub logs: Vec<Log>,
}

#[derive(Debug)]
pub struct DiffRequest {
    pub namespace: String,
    pub base_reference: String,
    pub target_reference: String,
}

#[derive(Debug)]
pub struct DiffResponse {
    pub diff: Option<Diff>,
}

#[derive(Debug)]
pub struct GraphStatusResponse {
    pub common_ancestor_commit: String,
    pub commits_ahead: i32,
    pub commits_behind: i32,
}

#[derive(Debug)]
pub struct StatusRequest {
    pub namespace: String,
    pub source_branch: String,
    pub target_branch: String,
}

#[derive(Debug)]
pub struct StatusResponse {
    pub dirty: bool,
}

} // verus!
