use gitproxy::error::{Code, Error};
use gitproxy::proto::{DiffStatus, Operation, Order, RevertStrategy};
use gitproxy::repository::{
    conflict_diff, diff_to_patch, Author, ConflictSide, Delta, GraphStatus, LogEntry, LogOrder,
    Merge, PatchDiff, Signature, Strategy, TagReference,
};
use gitproxy::server::{
    branch_messages, check_new_repository, diff_response, get_branch, graph_status_response,
    log_message, log_order, repo_dir, repository_message, revert_strategy, status_response,
};
use gitproxy::service::{
    merge_response, revert_response, strategy_from_wire, Service, WalkedBlob,
};

fn service() -> Service {
    Service::new(
        "/srv/repos/test".to_owned(),
        Author { name: "test".to_owned(), email: "test@example.com".to_owned() },
    )
}

fn strings(v: &[&str]) -> Vec<String> {
    v.iter().map(|s| s.to_string()).collect()
}

#[test]
fn service_keeps_its_directory_and_author() {
    let s = service();
    assert_eq!(s.repo_dir(), "/srv/repos/test");
    assert_eq!(s.author().email, "test@example.com");
}

#[test]
fn listed_branches_omit_main() {
    let s = service();
    assert_eq!(s.list_branches(&strings(&["main", "my-branch"])), strings(&["my-branch"]));
}

#[test]
fn existing_branches_cannot_be_created_again() {
    let s = service();
    let listed = strings(&["my-branch"]);
    match s.create_branch("my-branch".to_owned(), &listed) {
        Err(Error::BranchExists(b)) => assert_eq!(b, "my-branch"),
        other => panic!("unexpected {:?}", other),
    }
    assert_eq!(s.create_branch("other".to_owned(), &listed).unwrap(), "other");
}

#[test]
fn listed_tags_are_newest_first_in_wire_form() {
    let s = service();
    let reference = |name: &str, seconds: i64| TagReference {
        name: Some(format!("refs/tags/{name}")),
        commit: format!("commit-{name}"),
        tagger: Some(Signature { name: "bob".to_owned(), email: "bob@example.com".to_owned(), seconds }),
        commit_author: Signature { name: "x".to_owned(), email: "x".to_owned(), seconds: 0 },
    };
    let tags = s.list_tags(vec![reference("v1", 10), reference("v2", 20), reference("v3", 10)]).unwrap();
    let names: Vec<&str> = tags.iter().map(|t| t.name.as_str()).collect();
    assert_eq!(names, vec!["v2", "v1", "v3"]);
    let t = &tags[0];
    assert_eq!(t.commit, "commit-v2");
    assert_eq!(t.time.as_ref().map(|t| (t.seconds, t.nanos)), Some((20, 0)));
    assert_eq!(t.author.as_ref().map(|a| a.name.as_str()), Some("bob"));
}

#[test]
fn created_tags_in_wire_form() {
    let s = service();
    let author = Author { name: "bob".to_owned(), email: "bob@example.com".to_owned() };
    let t = s.create_tag("v1.0.0".to_owned(), "abc".to_owned(), &author, 1_700_000_000).unwrap();
    assert_eq!(t.name, "v1.0.0");
    assert_eq!(t.commit, "abc");
    assert_eq!(t.time.unwrap().seconds, 1_700_000_000);
    assert_eq!(t.author.unwrap().email, "bob@example.com");
}

#[test]
fn status_blob_and_blob_listing() {
    let s = service();
    assert!(s.status(0));
    assert!(!s.status(1));
    let f = s.get_blob("bar.txt".to_owned(), b"bar".to_vec());
    assert_eq!((f.path.as_str(), f.contents.as_slice()), ("bar.txt", &b"bar"[..]));
    let blob = |root: &str, name: &str, c: &str| WalkedBlob {
        root: root.to_owned(),
        name: name.to_owned(),
        contents: c.as_bytes().to_vec(),
    };
    let files = s.list_blobs(vec![blob("", "bar.txt", "bar"), blob("baz/", "quux.txt", "quux"), blob("", "foo.txt", "foo")]);
    assert_eq!(files.len(), 3);
    assert_eq!(files[1].path, "baz/quux.txt");
    assert_eq!(files[1].contents, b"quux");
}

#[test]
fn only_committed_merges_remove_their_source() {
    let s = service();
    assert!(s.merge(&Merge::Merged(Some("abc".to_owned()))));
    assert!(!s.merge(&Merge::Merged(None)));
    assert!(!s.merge(&Merge::Conflicts(Vec::new())));
}

#[test]
fn revert_strategies_from_requests() {
    let s = service();
    assert_eq!(s.revert_merge(Some(RevertStrategy::Unspecified)), Some(Strategy::KeepMainline));
    assert_eq!(s.revert_merge(Some(RevertStrategy::KeepOther)), Some(Strategy::KeepOther));
    assert_eq!(s.revert_merge(None), None);
    assert_eq!(strategy_from_wire(RevertStrategy::KeepMainline), Strategy::KeepMainline);
    assert_eq!(revert_strategy(None), Some(RevertStrategy::Unspecified));
    assert_eq!(revert_strategy(Some(None)), None);
    assert_eq!(revert_strategy(Some(Some(RevertStrategy::KeepOther))), Some(RevertStrategy::KeepOther));
}

#[test]
fn merge_and_revert_replies() {
    let r = merge_response(&Merge::Merged(Some("abc".to_owned())));
    assert_eq!(r.commit.as_deref(), Some("abc"));
    assert!(r.conflicts.is_empty());
    let side = |blob: &str| ConflictSide { path: b"f.json".to_vec(), blob: blob.as_bytes().to_vec() };
    let c = conflict_diff(Some(side(r#"{"a":1}"#)), Some(side(r#"{"a":2}"#)), Some(side(r#"{"a":0}"#)))
        .unwrap()
        .unwrap();
    let r = revert_response(&Merge::Conflicts(vec![c]));
    assert!(r.commit.is_none());
    assert_eq!(r.conflicts.len(), 1);
    assert_eq!(r.conflicts[0].path, "f.json");
    assert_eq!(r.conflicts[0].contents, br#"{"a":1}"#);
    assert!(r.conflicts[0].ours_to_theirs.is_empty());
    assert!(matches!(&r.conflicts[0].theirs[0].operation, Some(Operation::Replace(p)) if p.value == "2"));
}

#[test]
fn merge_reply_carries_each_conflict() {
    let side = |path: &str, blob: &str| ConflictSide { path: path.as_bytes().to_vec(), blob: blob.as_bytes().to_vec() };
    let first = conflict_diff(Some(side("a.json", r#"{"x":1}"#)), Some(side("a.json", r#"{"x":2}"#)), Some(side("a.json", "{}")))
        .unwrap()
        .unwrap();
    let second = conflict_diff(None, Some(side("b.json", r#"{"y":true}"#)), Some(side("b.json", r#"{"y":false}"#)))
        .unwrap()
        .unwrap();
    let r = merge_response(&Merge::Conflicts(vec![first, second]));
    assert!(r.commit.is_none());
    assert_eq!(r.conflicts.len(), 2);
    assert_eq!(r.conflicts[0].path, "a.json");
    assert_eq!(r.conflicts[0].contents, br#"{"x":1}"#);
    assert!(matches!(&r.conflicts[0].ours[0].operation, Some(Operation::Add(p)) if p.path == "/x" && p.value == "1"));
    assert!(matches!(&r.conflicts[0].theirs[0].operation, Some(Operation::Add(p)) if p.path == "/x" && p.value == "2"));
    assert_eq!(r.conflicts[1].path, "b.json");
    assert_eq!(r.conflicts[1].contents, br#"{"y":true}"#);
    assert!(matches!(&r.conflicts[1].ours[0].operation, Some(Operation::Remove(p)) if p.path == "/y"));
    assert!(matches!(&r.conflicts[1].theirs[0].operation, Some(Operation::Replace(p)) if p.path == "/y" && p.value == "true"));
    assert!(r.conflicts.iter().all(|c| c.ours_to_theirs.is_empty()));
}

#[test]
fn server_decisions() {
    assert_eq!(repo_dir("/srv/repos", "test"), "/srv/repos/test");
    assert!(check_new_repository(false, "test").is_ok());
    let s = check_new_repository(true, "test").unwrap_err();
    assert_eq!((s.code, s.message.as_str()), (Code::AlreadyExists, "repo test already exists"));
    let listed = strings(&["my-branch"]);
    assert_eq!(get_branch(&listed, "my-branch").unwrap().name, "my-branch");
    let s = get_branch(&listed, "other").unwrap_err();
    assert_eq!((s.code, s.message.as_str()), (Code::NotFound, "other was not found"));
    let bs = branch_messages(strings(&["a", "b"]));
    assert_eq!(bs.len(), 2);
    assert_eq!(bs[1].name, "b");
    assert_eq!(log_order(Some(Order::Reverse)), LogOrder::Reverse);
    assert_eq!(log_order(Some(Order::Normal)), LogOrder::Normal);
    assert_eq!(log_order(None), LogOrder::Normal);
    assert!(status_response(false).dirty);
    assert!(!status_response(true).dirty);
    let g = graph_status_response(GraphStatus::new("base".to_owned(), 1, 2));
    assert_eq!((g.common_ancestor_commit.as_str(), g.commits_ahead, g.commits_behind), ("base", 1, 2));
    let r = repository_message("test".to_owned(), "abc".to_owned());
    assert_eq!((r.namespace.as_str(), r.head_commit.as_str()), ("test", "abc"));
}

#[test]
fn log_and_diff_replies() {
    let author = Author { name: "test".to_owned(), email: "test@example.com".to_owned() };
    let m = log_message(LogEntry::new("Added my_file".to_owned(), author, "abc".to_owned(), 5));
    assert_eq!(m.message, "Added my_file");
    assert_eq!(m.time.unwrap().seconds, 5);
    assert_eq!(m.author.unwrap().name, "test");
    let patch = diff_to_patch(Delta::Added, b"", br#"{"x":[1]}"#).unwrap();
    let d = PatchDiff { status: Delta::Added, old_path: None, new_path: Some("x.json".to_owned()), patch };
    let r = diff_response(&vec![d]);
    let files = r.diff.unwrap().files;
    assert_eq!(files.len(), 1);
    assert_eq!(files[0].status, DiffStatus::Added);
    assert_eq!(files[0].new_path.as_deref(), Some("x.json"));
    assert!(matches!(&files[0].patches[0].operation, Some(Operation::Add(a)) if a.path == "/x" && a.value == "[1]"));
}
