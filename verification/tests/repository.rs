use gitproxy::error::{Code, Error, GitError};
use gitproxy::json::{patch_messages, PatchOp};
use gitproxy::proto::{DiffStatus, Operation};
use gitproxy::repository::{
    branch_found, branch_ref, bytes2path, collect_tags, conflict_diff, created_tag, diff_status,
    diff_to_patch, is_clean, join, listed_branches, merge_step, new_index_entry, object_to_json,
    patch_diff, reads_new_side, reads_old_side, revert_mainline, revert_message, sort_newest_first, squash_merge_message,
    tag_name, tree_changed, Author, ConflictSide, Delta, GraphStatus, LogEntry, LogOrder,
    MergeStep, Signature, Strategy, Tag, TagReference,
};
use gitproxy::time::seconds_or_epoch;

fn strings(v: &[&str]) -> Vec<String> {
    v.iter().map(|s| s.to_string()).collect()
}

fn sig(name: &str, seconds: i64) -> Signature {
    Signature { name: name.to_owned(), email: format!("{name}@example.com"), seconds }
}

fn tag(name: &str, time: i64) -> Tag {
    Tag {
        name: name.to_owned(),
        commit: "c".to_owned(),
        time,
        author: Author { name: "a".to_owned(), email: "a@example.com".to_owned() },
    }
}

#[test]
fn branch_reference_names() {
    assert_eq!(branch_ref("main"), "refs/heads/main");
    assert_eq!(branch_ref("my-branch"), "refs/heads/my-branch");
}

#[test]
fn primary_branch_is_not_listed() {
    let listed = listed_branches(&strings(&["feature", "main", "my-branch", "mainline"]));
    assert_eq!(listed, strings(&["feature", "my-branch", "mainline"]));
    assert!(listed_branches(&strings(&["main"])).is_empty());
}

#[test]
fn tag_names_lose_their_prefix() {
    assert_eq!(tag_name("refs/tags/v1.0.0"), "v1.0.0");
    assert_eq!(tag_name("refs/tags/"), "");
    assert_eq!(tag_name("refs/heads/main"), "refs/heads/main");
    assert_eq!(tag_name("v1"), "v1");
}

#[test]
fn tags_come_newest_first_and_ties_keep_their_order() {
    let sorted = sort_newest_first(vec![tag("a", 10), tag("b", 30), tag("c", 10), tag("d", 20)]);
    let names: Vec<&str> = sorted.iter().map(|t| t.name.as_str()).collect();
    assert_eq!(names, vec!["b", "d", "a", "c"]);
}

#[test]
fn tags_use_the_tagger_or_else_the_commit_author() {
    let refs = vec![
        TagReference {
            name: Some("refs/tags/v1.0.0".to_owned()),
            commit: "c1".to_owned(),
            tagger: Some(sig("bob", 100)),
            commit_author: sig("alice", 50),
        },
        TagReference {
            name: None,
            commit: "c2".to_owned(),
            tagger: None,
            commit_author: sig("carol", 60),
        },
        TagReference {
            name: Some("refs/tags/light".to_owned()),
            commit: "c3".to_owned(),
            tagger: None,
            commit_author: sig("dave", 70),
        },
    ];
    let tags = collect_tags(refs).unwrap();
    assert_eq!(tags.len(), 2);
    assert_eq!(tags[0].name, "v1.0.0");
    assert_eq!(tags[0].author.name, "bob");
    assert_eq!(tags[0].time, 100);
    assert_eq!(tags[1].name, "light");
    assert_eq!(tags[1].author.email, "dave@example.com");
    assert_eq!(tags[1].commit, "c3");
}

#[test]
fn tag_time_out_of_range_fails() {
    let refs = vec![TagReference {
        name: Some("refs/tags/v1".to_owned()),
        commit: "c".to_owned(),
        tagger: Some(sig("bob", i64::MAX)),
        commit_author: sig("alice", 0),
    }];
    assert!(matches!(collect_tags(refs), Err(Error::Time(_))));
    let author = Author { name: "bob".to_owned(), email: "bob@example.com".to_owned() };
    let t = created_tag("v1.0.0", "deadbeef".to_owned(), &author, 1_700_000_000).unwrap();
    assert_eq!(t.name, "v1.0.0");
    assert_eq!(t.commit, "deadbeef");
    assert_eq!(t.time, 1_700_000_000);
    assert!(matches!(created_tag("v", "x".to_owned(), &author, i64::MIN), Err(Error::Time(_))));
}

#[test]
fn timestamp_bounds() {
    assert_eq!(seconds_or_epoch(253402207200), 253402207200);
    assert_eq!(seconds_or_epoch(253402207201), 0);
    assert_eq!(seconds_or_epoch(-377705023201), -377705023201);
    assert_eq!(seconds_or_epoch(-377705023202), 0);
    assert_eq!(seconds_or_epoch(42), 42);
    assert_eq!(seconds_or_epoch(i64::MAX), 0);
}

#[test]
fn log_entries_and_order() {
    let author = Author { name: "test".to_owned(), email: "test@example.com".to_owned() };
    let e = LogEntry::new("msg".to_owned(), author, "c".to_owned(), i64::MIN);
    assert_eq!(e.time, 0);
    assert_eq!(e.message, "msg");
    let s = LogOrder::Reverse.sorting();
    assert!(s.topological && s.reverse);
    let s = LogOrder::Normal.sorting();
    assert!(s.topological && !s.reverse);
    assert_eq!(LogOrder::default(), LogOrder::Normal);
}

#[test]
fn squash_merge_message_lists_summaries() {
    let msg = squash_merge_message(&vec![Some("Added my_file".to_owned())]);
    assert_eq!(msg, "Merged branch\n- Added my_file\n");
    let msg = squash_merge_message(&vec![Some("one".to_owned()), None, Some("two".to_owned())]);
    assert_eq!(msg, "Merged branch\n- one\n- two\n");
    assert_eq!(squash_merge_message(&Vec::new()), "Merged branch\n");
}

#[test]
fn revert_messages_and_mainlines() {
    assert_eq!(revert_message("abc123"), "Reverted abc123");
    match revert_mainline(0, None) {
        Err(Error::Git(g)) => {
            assert!(!g.not_found);
            assert_eq!(g.message, "Initial root commit cannot be reverted");
        }
        other => panic!("unexpected {:?}", other),
    }
    assert_eq!(revert_mainline(1, Some(Strategy::KeepOther)).unwrap(), 0);
    assert_eq!(revert_mainline(2, Some(Strategy::KeepOther)).unwrap(), 1);
    assert_eq!(revert_mainline(2, Some(Strategy::KeepMainline)).unwrap(), 0);
    assert_eq!(revert_mainline(3, None).unwrap(), 0);
    assert_eq!(Strategy::default(), Strategy::KeepMainline);
}

#[test]
fn merge_steps() {
    assert_eq!(merge_step(true, true), MergeStep::ReportConflicts);
    assert_eq!(merge_step(false, true), MergeStep::DryRun);
    assert_eq!(merge_step(false, false), MergeStep::Commit);
}

#[test]
fn branch_lookups() {
    assert_eq!(branch_found(Ok(())).unwrap(), true);
    let missing = GitError { not_found: true, message: "no branch".to_owned() };
    assert_eq!(branch_found(Err(missing)).unwrap(), false);
    let broken = GitError::from_message("broken");
    assert!(matches!(branch_found(Err(broken)), Err(Error::Git(g)) if g.message == "broken"));
}

#[test]
fn commits_of_an_unchanged_tree_are_skipped() {
    assert!(!tree_changed(&Some("t1".to_owned()), &"t1".to_owned()));
    assert!(tree_changed(&Some("t1".to_owned()), &"t2".to_owned()));
    assert!(tree_changed(&None, &"t1".to_owned()));
    assert!(is_clean(0));
    assert!(!is_clean(2));
}

#[test]
fn graph_status_counts_are_narrowed() {
    let g = GraphStatus::new("abc".to_owned(), 3, 5);
    assert_eq!((g.commits_ahead, g.commits_behind), (3, 5));
    let g = GraphStatus::new("abc".to_owned(), (u32::MAX as usize) + 1, 0);
    assert_eq!(g.commits_ahead, 0);
}

#[test]
fn delta_statuses() {
    assert_eq!(diff_status(Delta::Added), DiffStatus::Added);
    assert_eq!(diff_status(Delta::Renamed), DiffStatus::Renamed);
    assert_eq!(diff_status(Delta::Conflicted), DiffStatus::Conflicted);
}

#[test]
fn json_patch_of_a_modified_file() {
    let patch = diff_to_patch(Delta::Modified, br#"{"a":1,"b":true}"#, br#"{"a":2,"b":true}"#).unwrap();
    let ms = patch_messages(&patch);
    assert_eq!(ms.len(), 1);
    match &ms[0].operation {
        Some(Operation::Replace(r)) => {
            assert_eq!(r.path, "/a");
            assert_eq!(r.value, "2");
        }
        other => panic!("unexpected {:?}", other),
    }
}

#[test]
fn json_patch_of_added_and_deleted_files() {
    let added = diff_to_patch(Delta::Added, b"not json", br#"{"k":"v"}"#).unwrap();
    let ms = patch_messages(&added);
    assert_eq!(ms.len(), 1);
    assert!(matches!(&ms[0].operation, Some(Operation::Add(a)) if a.path == "/k" && a.value == "\"v\""));
    let deleted = diff_to_patch(Delta::Deleted, br#"{"k":"v"}"#, b"").unwrap();
    let ms = patch_messages(&deleted);
    assert!(matches!(&ms[0].operation, Some(Operation::Remove(r)) if r.path == "/k"));
    assert!(matches!(diff_to_patch(Delta::Modified, b"{", b"{}"), Err(Error::Json(_))));
    let same = diff_to_patch(Delta::Modified, b"{}", b"{}").unwrap();
    assert!(patch_messages(&same).is_empty());
}

#[test]
fn patch_diffs_keep_reported_changes_only() {
    let p = patch_diff(Delta::Modified, Some("a.json".into()), Some("a.json".into()), b"{}", b"{}");
    assert!(p.is_some());
    assert!(patch_diff(Delta::Copied, Some("a".into()), Some("b".into()), b"{}", b"{}").is_none());
    assert!(patch_diff(Delta::Deleted, None, Some("a".into()), b"{}", b"{}").is_none());
    assert!(patch_diff(Delta::Modified, Some("a".into()), Some("a".into()), b"x", b"{}").is_none());
    let d = patch_diff(Delta::Deleted, Some("a".into()), None, b"{}", b"").unwrap();
    assert_eq!(d.status, Delta::Deleted);
    assert_eq!(d.old_path.as_deref(), Some("a"));
}

#[test]
fn conflicting_changes_are_reported_against_the_ancestor() {
    let side = |blob: &str| ConflictSide { path: b"my_file.json".to_vec(), blob: blob.as_bytes().to_vec() };
    let d = conflict_diff(
        Some(side(r#"{"a":"Change from main branch"}"#)),
        Some(side(r#"{"a":"Change from my-branch"}"#)),
        Some(side(r#"{"a":"Initial content"}"#)),
    )
    .unwrap()
    .unwrap();
    assert_eq!(d.path, b"my_file.json");
    assert_eq!(d.contents, br#"{"a":"Change from main branch"}"#);
    let ours = patch_messages(&d.ours);
    let theirs = patch_messages(&d.theirs);
    assert!(matches!(&ours[0].operation, Some(Operation::Replace(r)) if r.path == "/a" && r.value == "\"Change from main branch\""));
    assert!(matches!(&theirs[0].operation, Some(Operation::Replace(r)) if r.path == "/a" && r.value == "\"Change from my-branch\""));
    assert!(conflict_diff(None, None, None).unwrap().is_none());
    let only_ancestor = conflict_diff(None, None, Some(side("{}"))).unwrap().unwrap();
    assert!(only_ancestor.contents.is_empty());
    assert!(matches!(conflict_diff(Some(side("{")), None, None), Err(Error::Json(_))));
}

#[test]
fn missing_index_entries_read_as_empty_objects() {
    assert_eq!(object_to_json(&None), b"{}".to_vec());
    assert_eq!(object_to_json(&Some(b"[1,2]".to_vec())), b"[1,2]".to_vec());
}

#[test]
fn conflict_sides_missing_count_as_empty_objects() {
    let side = |blob: &str| ConflictSide { path: b"new.json".to_vec(), blob: blob.as_bytes().to_vec() };
    let d = conflict_diff(Some(side(r#"{"a":1}"#)), Some(side(r#"{"b":2}"#)), None).unwrap().unwrap();
    let ours = patch_messages(&d.ours);
    let theirs = patch_messages(&d.theirs);
    assert_eq!(ours.len(), 1);
    assert_eq!(theirs.len(), 1);
    assert!(matches!(&ours[0].operation, Some(Operation::Add(a)) if a.path == "/a" && a.value == "1"));
    assert!(matches!(&theirs[0].operation, Some(Operation::Add(a)) if a.path == "/b" && a.value == "2"));
    let gone = conflict_diff(None, Some(side("{}")), Some(side(r#"{"a":1}"#))).unwrap().unwrap();
    let ours = patch_messages(&gone.ours);
    assert!(matches!(&ours[0].operation, Some(Operation::Remove(r)) if r.path == "/a"));
    assert!(patch_messages(&gone.theirs).iter().all(|m| matches!(&m.operation, Some(Operation::Remove(_)))));
    assert!(matches!(conflict_diff(Some(side("{}")), Some(side("nope")), None), Err(Error::Json(_))));
}

#[test]
fn json_patch_runs_from_old_to_new() {
    let patch = diff_to_patch(Delta::Modified, br#"{"a":1}"#, br#"{}"#).unwrap();
    let ms = patch_messages(&patch);
    assert_eq!(ms.len(), 1);
    assert!(matches!(&ms[0].operation, Some(Operation::Remove(r)) if r.path == "/a"));
    let d = patch_diff(Delta::Added, None, Some("n.json".into()), b"ignored", br#"{"n":null}"#).unwrap();
    let ms = patch_messages(&d.patch);
    assert!(matches!(&ms[0].operation, Some(Operation::Add(a)) if a.path == "/n" && a.value == "null"));
}

#[test]
fn index_entries_for_new_files() {
    let e = new_index_entry(vec![7; 20], "baz/quux.txt", b"quux");
    assert_eq!(e.mode, 0o100644);
    assert_eq!(e.file_size, 4);
    assert_eq!(e.path, b"baz/quux.txt");
    assert_eq!(e.id, vec![7; 20]);
    assert_eq!((e.ctime, e.mtime), ((0, 0), (0, 0)));
    assert_eq!((e.uid, e.gid, e.dev, e.ino, e.flags, e.flags_extended), (0, 0, 0, 0, 0, 0));
}

#[test]
fn paths_are_joined_like_pathbuf_push() {
    assert_eq!(join("", "foo.txt"), "foo.txt");
    assert_eq!(join("baz/", "quux.txt"), "baz/quux.txt");
    assert_eq!(join("/srv/repos", "test"), "/srv/repos/test");
    assert_eq!(join("a", "/abs"), "/abs");
    assert_eq!(bytes2path(b"baz/quux.txt"), "baz/quux.txt");
    assert_eq!(bytes2path("caf\u{e9}".as_bytes()), "caf\u{e9}");
}

#[test]
fn errors_are_answered_by_kind() {
    let s = Error::InvalidCommit("HEAD~9".to_owned()).into_status();
    assert_eq!((s.code, s.message.as_str()), (Code::InvalidArgument, "HEAD~9"));
    let s = Error::BranchExists("my-branch".to_owned()).into_status();
    assert_eq!((s.code, s.message.as_str()), (Code::AlreadyExists, "my-branch"));
    let s = Error::Git(GitError::from_message("boom")).into_status();
    assert_eq!((s.code, s.message.as_str()), (Code::Internal, "boom"));
    let s = Error::IO("disk".to_owned()).into_status();
    assert_eq!(s.code, Code::Internal);
}

#[test]
fn patch_ops_are_plain_values() {
    let op = PatchOp::Move { from: "/a".to_owned(), path: "/b".to_owned() };
    let m = gitproxy::json::diff_patch_message(op);
    assert!(matches!(m.operation, Some(Operation::Move(mv)) if mv.from == "/a" && mv.path == "/b"));
}

#[test]
fn error_texts() {
    assert_eq!(Error::InvalidCommit("HEAD~9".to_owned()).message(), "reference HEAD~9 is not a valid commit");
    assert_eq!(Error::BranchExists("b".to_owned()).message(), "branch b already exists");
    assert_eq!(Error::Git(GitError::from_message("boom")).message(), "git error boom");
    assert_eq!(Error::IO("disk".to_owned()).message(), "IO error disk");
}

#[test]
fn which_sides_of_a_change_are_read() {
    assert!(!reads_old_side(Delta::Added));
    assert!(reads_new_side(Delta::Added));
    assert!(reads_old_side(Delta::Deleted));
    assert!(!reads_new_side(Delta::Deleted));
    assert!(reads_old_side(Delta::Modified) && reads_new_side(Delta::Modified));
}
