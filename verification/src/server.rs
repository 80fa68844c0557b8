//! What each request handler decides, apart from the locking, the I/O and
//! the transport around it.
use vstd::prelude::*;

use crate::error::{Code, Status};
use crate::proto::{self, Branch, CommitAuthor, Order, RevertStrategy, Timestamp};
use crate::repository::{join, join_path, strings_view, GraphStatus, LogEntry, LogOrder, PatchDiff};
use crate::service::{carries_patch, diff_file};
use crate::repository::diff_status_spec;

verus! {

/// The directory of the repository of `namespace` under `root_dir`.
pub fn repo_dir(root_dir: &str, namespace: &str) -> (d: String)
    ensures
        d@ == join_path(root_dir@, namespace@),
{
    join(root_dir, namespace)
}

/// Whether a repository may be created: not when its directory exists.
pub fn check_new_repository(exists: bool, namespace: &str) -> (r: Result<(), Status>)
    ensures
        r is Ok <==> !exists,
        r matches Err(s) ==> s.code == Code::AlreadyExists && s.message@ == "repo "@ + namespace@
            + " already exists"@,
{
    if exists {
        let mut message = String::from_str("repo ");
        message.append(namespace);
        message.append(" already exists");
        Err(Status { code: Code::AlreadyExists, message })
    } else {
        Ok(())
    }
}

/// The branch asked for, given the branches listed: not found when none of
/// them has its name.
pub fn get_branch(listed: &Vec<String>, branch: &str) -> (r: Result<Branch, Status>)
    ensures
        strings_view(listed@).contains(branch@) ==> (r matches Ok(b) && b.name@ == branch@),
        !strings_view(listed@).contains(branch@) ==> (r matches Err(s) && s.code == Code::NotFound
            && s.message@ == branch@ + " was not found"@),
{
    let wanted = String::from_str(branch);
    let mut i: usize = 0;
    while i < listed.len()
        invariant
            wanted@ == branch@,
            i <= listed.len(),
            forall|j: int| 0 <= j < i ==> listed@[j]@ != branch@,
        decreases listed.len() - i,
    {
        if listed[i] == wanted {
            assert(strings_view(listed@)[i as int] == branch@);
            return Ok(Branch { name: wanted });
        }
        i = i + 1;
    }
    assert(!strings_view(listed@).contains(branch@)) by {
        if strings_view(listed@).contains(branch@) {
            let j = choose|j: int| 0 <= j < listed@.len() && strings_view(listed@)[j] == branch@;
            assert(listed@[j]@ == branch@);
        }
    }
    let mut message = wanted;
    message.append(" was not found");
    Err(Status { code: Code::NotFound, message })
}

/// The wire form of the branches listed, in order.
pub fn branch_messages(names: Vec<String>) -> (bs: Vec<Branch>)
    ensures
        bs@.len() == names@.len(),
        forall|i: int| 0 <= i < bs@.len() ==> (#[trigger] bs@[i]).name == names@[i],
{
    let ghost all = names@;
    let mut remaining = names;
    let total = remaining.len();
    let mut bs: Vec<Branch> = Vec::new();
    let mut k: usize = 0;
    while remaining.len() > 0
        invariant
            k + remaining.len() == total,
            total == all.len(),
            remaining@ == all.skip(k as int),
            bs@.len() == k,
            forall|i: int| 0 <= i < k ==> (#[trigger] bs@[i]).name == all[i],
        decreases remaining.len(),
    {
        let name = remaining.remove(0);
        assert(name == all[k as int]);
        bs.push(Branch { name });
        assert(remaining@ =~= all.skip(k + 1));
        k = k + 1;
    }
    bs
}

/// The order of a log, from the one requested: reversed only when asked
/// for by name.
pub fn log_order(order: Option<Order>) -> (o: LogOrder)
    ensures
        o == if order == Some(Order::Reverse) {
            LogOrder::Reverse
        } else {
            LogOrder::Normal
        },
{
    match order {
        Some(Order::Reverse) => LogOrder::Reverse,
        _ => LogOrder::Normal,
    }
}

/// The wire form of a log entry, its time in whole seconds.
pub fn log_message(entry: LogEntry) -> (m: proto::Log)
    ensures
        m.message == entry.message,
        m.commit == entry.commit,
        m.author matches Some(a) && a.name == entry.author.name && a.email == entry.author.email,
        m.time matches Some(t) && t.seconds == entry.time && t.nanos == 0,
{
    proto::Log {
        message: entry.message,
        author: Some(CommitAuthor { name: entry.author.name, email: entry.author.email }),
        commit: entry.commit,
        time: Some(Timestamp { seconds: entry.time, nanos: 0 }),
    }
}

/// The strategy asked for by a revert: an absent field counts as
/// unspecified; a value that this version does not know counts as none.
pub fn revert_strategy(field: Option<Option<RevertStrategy>>) -> (s: Option<RevertStrategy>)
    ensures
        s == match field {
            Some(known) => known,
            None => Some(RevertStrategy::Unspecified),
        },
{
    match field {
        Some(known) => known,
        None => Some(RevertStrategy::Unspecified),
    }
}

/// The reply to a status request: dirty when the branches differ.
pub fn status_response(clean: bool) -> (r: proto::StatusResponse)
    ensures
        r.dirty == !clean,
{
    proto::StatusResponse { dirty: !clean }
}

/// The reply to a graph status request.
pub fn graph_status_response(g: GraphStatus) -> (r: proto::GraphStatusResponse)
    ensures
        r.common_ancestor_commit == g.common_ancestor_commit,
        r.commits_ahead == g.commits_ahead,
        r.commits_behind == g.commits_behind,
{
    proto::GraphStatusResponse {
        common_ancestor_commit: g.common_ancestor_commit,
        commits_ahead: g.commits_ahead,
        commits_behind: g.commits_behind,
    }
}

/// The reply to a diff request: every changed file in wire form, in order.
pub fn diff_response(diffs: &Vec<PatchDiff>) -> (r: proto::DiffResponse)
    ensures
        r.diff matches Some(d) && d.files@.len() == diffs@.len() && forall|i: int|
            0 <= i < d.files@.len() ==> {
                &&& (#[trigger] d.files@[i]).status == diff_status_spec(diffs@[i].status)
                &&& d.files@[i].old_path == diffs@[i].old_path
                &&& d.files@[i].new_path == diffs@[i].new_path
                &&& carries_patch(d.files@[i].patches@, diffs@[i].patch)
            },
{
    let mut files: Vec<proto::DiffFile> = Vec::new();
    let mut i: usize = 0;
    while i < diffs.len()
        invariant
            i <= diffs.len(),
            files@.len() == i,
            forall|j: int|
                0 <= j < i ==> {
                    &&& (#[trigger] files@[j]).status == diff_status_spec(diffs@[j].status)
                    &&& files@[j].old_path == diffs@[j].old_path
                    &&& files@[j].new_path == diffs@[j].new_path
                    &&& carries_patch(files@[j].patches@, diffs@[j].patch)
                },
        decreases diffs.len() - i,
    {
        files.push(diff_file(&diffs[i]));
        i = i + 1;
    }
    proto::DiffResponse { diff: Some(proto::Diff { files }) }
}

/// The wire form of a repository and the commit its primary branch is at.
pub fn repository_message(namespace: String, head_commit: String) -> (r: proto::Repository)
    ensures
        r.namespace == namespace,
        r.head_commit == head_commit,
{
    proto::Repository { namespace, head_commit }
}

} // verus!
