//! The repository service: what each operation computes from what was read
//! from the repository, and the wire form of its results.
use vstd::prelude::*;

use crate::error::Error;
use crate::json::{diff_patch_view, patch_messages, patch_operations};
use crate::proto::{self, CommitAuthor, File, RevertStrategy, Timestamp};
use crate::repository::{
    bytes2path, collect_tags, created_tag, diff_status, diff_status_spec, join, join_path, listed,
    listed_branches, made_at, newest_first, reference_tags, signer, sort_newest_first,
    strings_view, tags_view, Author, AuthorView, ConflictDiff, Merge, PatchDiff, Strategy, Tag,
    TagReference, TagView,
};
use crate::time::in_time_range;

verus! {

/// The service of one repository: where it lives and who commits on its
/// behalf.
pub struct Service {
    repo_dir: String,
    author: Author,
}

/// A blob met while walking a tree: the directory it is in (empty, or
/// ending with `/`), its name, and its contents.
#[derive(Debug)]
pub struct WalkedBlob {
    pub root: String,
    pub name: String,
    pub contents: Vec<u8>,
}

/// The wire form of a tag, read back as a tag.
pub open spec fn tag_message_view(m: proto::Tag) -> TagView {
    TagView {
        name: m.name@,
        commit: m.commit@,
        time: match m.time {
            Some(t) => t.seconds,
            None => 0,
        },
        author: match m.author {
            Some(a) => AuthorView { name: a.name@, email: a.email@ },
            None => AuthorView { name: seq![], email: seq![] },
        },
    }
}

/// Whether a tag message carries a whole-second time and an author.
pub open spec fn complete_tag_message(m: proto::Tag) -> bool {
    &&& m.time matches Some(t) && t.nanos == 0
    &&& m.author is Some
}

/// The wire forms of a sequence of tags, read back as tags.
pub open spec fn tag_messages_view(s: Seq<proto::Tag>) -> Seq<TagView> {
    s.map_values(|m: proto::Tag| tag_message_view(m))
}

/// The wire form of a tag.
pub fn tag_message(tag: Tag) -> (m: proto::Tag)
    ensures
        complete_tag_message(m),
        tag_message_view(m) == tag@,
{
    proto::Tag {
        name: tag.name,
        commit: tag.commit,
        time: Some(Timestamp { seconds: tag.time, nanos: 0 }),
        author: Some(CommitAuthor { name: tag.author.name, email: tag.author.email }),
    }
}

impl Service {
    /// The service's repository directory.
    pub closed spec fn repo_dir_view(&self) -> Seq<char> {
        self.repo_dir@
    }

    /// The service's own author.
    pub closed spec fn author_view(&self) -> AuthorView {
        self.author@
    }

    /// The service of the repository in `repo_dir`, committing as `author`.
    pub fn new(repo_dir: String, author: Author) -> (s: Service)
        ensures
            s.repo_dir_view() == repo_dir@,
            s.author_view() == author@,
    {
        Service { repo_dir, author }
    }

    /// The repository directory.
    pub fn repo_dir(&self) -> (d: &String)
        ensures
            d@ == self.repo_dir_view(),
    {
        &self.repo_dir
    }

    /// The service's own author.
    pub fn author(&self) -> (a: &Author)
        ensures
            a@ == self.author_view(),
    {
        &self.author
    }

    /// The branches listed, given the local branches read: all but the
    /// primary one, in the order read.
    pub fn list_branches(&self, local_branches: &Vec<String>) -> (r: Vec<String>)
        ensures
            strings_view(r@) == listed(strings_view(local_branches@)),
    {
        listed_branches(local_branches)
    }

    /// The branch to create, given the branches listed: refused when one of
    /// them has that name already.
    pub fn create_branch(&self, branch: String, listed: &Vec<String>) -> (r: Result<String, Error>)
        ensures
            strings_view(listed@).contains(branch@) ==> (r matches Err(Error::BranchExists(b)) && b@ == branch@),
            !strings_view(listed@).contains(branch@) ==> (r matches Ok(b) && b@ == branch@),
    {
        let mut i: usize = 0;
        while i < listed.len()
            invariant
                i <= listed.len(),
                forall|j: int| 0 <= j < i ==> listed@[j]@ != branch@,
            decreases listed.len() - i,
        {
            if listed[i] == branch {
                assert(strings_view(listed@)[i as int] == branch@);
                return Err(Error::BranchExists(branch));
            }
            i = i + 1;
        }
        assert(!strings_view(listed@).contains(branch@)) by {
            if strings_view(listed@).contains(branch@) {
                let j = choose|j: int| 0 <= j < listed@.len() && strings_view(listed@)[j] == branch@;
                assert(listed@[j]@ == branch@);
            }
        }
        Ok(branch)
    }

    /// The tags reported, given the tag references read: each under its
    /// short name, with its tagger (or else its commit's author) and that
    /// signature's time, from the newest to the oldest, tags of the same
    /// second in the order read. It fails when a time is not one that a
    /// timestamp holds.
    pub fn list_tags(&self, refs: Vec<TagReference>) -> (r: Result<Vec<proto::Tag>, Error>)
        ensures
            r is Ok <==> forall|i: int| 0 <= i < refs@.len() ==> in_time_range(#[trigger] signer(refs@[i]).seconds),
            r matches Ok(ms) ==> {
                &&& forall|i: int| 0 <= i < ms@.len() ==> complete_tag_message(#[trigger] ms@[i])
                &&& newest_first(tag_messages_view(ms@))
                &&& forall|t: i64| #[trigger]
                    made_at(tag_messages_view(ms@), t) == made_at(reference_tags(refs@), t)
                &&& tag_messages_view(ms@).to_multiset() == reference_tags(refs@).to_multiset()
            },
            r matches Err(e) ==> e is Time,
    {
        let tags = collect_tags(refs)?;
        let sorted = sort_newest_first(tags);
        let ghost sorted_view = tags_view(sorted@);
        let mut remaining = sorted;
        let total = remaining.len();
        let mut ms: Vec<proto::Tag> = Vec::new();
        let mut k: usize = 0;
        while remaining.len() > 0
            invariant
                k + remaining.len() == total,
                total == sorted_view.len(),
                tags_view(remaining@) == sorted_view.skip(k as int),
                tag_messages_view(ms@) == sorted_view.take(k as int),
                forall|i: int| 0 <= i < ms@.len() ==> complete_tag_message(#[trigger] ms@[i]),
            decreases remaining.len(),
        {
            let ghost prev = remaining@;
            let tag = remaining.remove(0);
            assert(tag@ == sorted_view[k as int]) by {
                assert(tags_view(prev)[0] == tag@);
            }
            let ghost before = ms@;
            ms.push(tag_message(tag));
            proof {
                assert(tag_messages_view(ms@) =~= tag_messages_view(before).push(sorted_view[k as int]));
                assert(sorted_view.take(k + 1) =~= sorted_view.take(k as int).push(sorted_view[k as int]));
                assert(tags_view(remaining@) =~= tags_view(prev).drop_first());
                assert(sorted_view.skip(k as int).drop_first() =~= sorted_view.skip(k + 1));
            }
            k = k + 1;
        }
        assert(sorted_view.take(k as int) =~= sorted_view);
        Ok(ms)
    }

    /// The tag reported for one just made, given the id of the tag object
    /// and its signature's time.
    pub fn create_tag(&self, name: String, tag_id: String, author: &Author, seconds: i64) -> (r: Result<proto::Tag, Error>)
        ensures
            r is Ok <==> in_time_range(seconds),
            r matches Ok(m) ==> complete_tag_message(m) && tag_message_view(m) == (TagView {
                name: name@,
                commit: tag_id@,
                time: seconds,
                author: author@,
            }),
            r matches Err(e) ==> e is Time,
    {
        let tag = created_tag(name.as_str(), tag_id, author, seconds)?;
        Ok(tag_message(tag))
    }

    /// Whether two branches differ in no file, given the number of files
    /// that the diff between them changes.
    pub fn status(&self, changed_files: usize) -> (clean: bool)
        ensures
            clean == (changed_files == 0),
    {
        changed_files == 0
    }

    /// The file reported for a blob read at `path`.
    pub fn get_blob(&self, path: String, contents: Vec<u8>) -> (f: File)
        ensures
            f.path == path,
            f.contents == contents,
    {
        File { path, contents }
    }

    /// The files reported for the blobs met while walking a commit's tree,
    /// in the order met, each under its directory joined with its name.
    pub fn list_blobs(&self, blobs: Vec<WalkedBlob>) -> (r: Vec<File>)
        ensures
            r@.len() == blobs@.len(),
            forall|i: int|
                0 <= i < r@.len() ==> (#[trigger] r@[i]).path@ == join_path(blobs@[i].root@, blobs@[i].name@)
                    && r@[i].contents == blobs@[i].contents,
    {
        let ghost all = blobs@;
        let mut remaining = blobs;
        let total = remaining.len();
        let mut r: Vec<File> = Vec::new();
        let mut k: usize = 0;
        while remaining.len() > 0
            invariant
                k + remaining.len() == total,
                total == all.len(),
                remaining@ == all.skip(k as int),
                r@.len() == k,
                forall|i: int|
                    0 <= i < k ==> (#[trigger] r@[i]).path@ == join_path(all[i].root@, all[i].name@)
                        && r@[i].contents == all[i].contents,
            decreases remaining.len(),
        {
            let blob = remaining.remove(0);
            assert(blob == all[k as int]);
            let path = join(blob.root.as_str(), blob.name.as_str());
            r.push(File { path, contents: blob.contents });
            assert(remaining@ =~= all.skip(k + 1));
            k = k + 1;
        }
        r
    }

    /// Whether a merge removes its source branch afterwards: only when it
    /// made a commit.
    pub fn merge(&self, outcome: &Merge) -> (remove_source: bool)
        ensures
            remove_source == (outcome matches Merge::Merged(Some(_))),
    {
        match outcome {
            Merge::Merged(Some(_)) => true,
            _ => false,
        }
    }

    /// The strategy of a revert, from the one requested.
    pub fn revert_merge(&self, strategy: Option<RevertStrategy>) -> (s: Option<Strategy>)
        ensures
            match strategy {
                Some(w) => s == Some(strategy_from_wire_spec(w)),
                None => s is None,
            },
    {
        match strategy {
            Some(w) => Some(strategy_from_wire(w)),
            None => None,
        }
    }
}

/// The strategy that a requested one stands for; an unspecified one is the
/// default, which keeps the mainline.
pub open spec fn strategy_from_wire_spec(w: RevertStrategy) -> Strategy {
    match w {
        RevertStrategy::Unspecified => Strategy::KeepMainline,
        RevertStrategy::KeepMainline => Strategy::KeepMainline,
        RevertStrategy::KeepOther => Strategy::KeepOther,
    }
}

/// The strategy that a requested one stands for.
pub fn strategy_from_wire(w: RevertStrategy) -> (s: Strategy)
    ensures
        s == strategy_from_wire_spec(w),
{
    match w {
        RevertStrategy::Unspecified => Strategy::KeepMainline,
        RevertStrategy::KeepMainline => Strategy::KeepMainline,
        RevertStrategy::KeepOther => Strategy::KeepOther,
    }
}

/// Whether the wire patch `ms` carries exactly the operations of `patch`.
pub open spec fn carries_patch(ms: Seq<proto::DiffPatch>, patch: json_patch::Patch) -> bool {
    &&& ms.len() == patch_operations(patch).len()
    &&& forall|i: int| 0 <= i < ms.len() ==> diff_patch_view(#[trigger] ms[i]) == Some(patch_operations(patch)[i])
}

/// The wire form of a changed file.
pub fn diff_file(d: &PatchDiff) -> (f: proto::DiffFile)
    ensures
        f.status == diff_status_spec(d.status),
        f.old_path == d.old_path,
        f.new_path == d.new_path,
        carries_patch(f.patches@, d.patch),
{
    proto::DiffFile {
        status: diff_status(d.status),
        old_path: d.old_path.clone(),
        new_path: d.new_path.clone(),
        patches: patch_messages(&d.patch),
    }
}

/// Whether `m` is the wire form of the conflict `c`: its path as text (where
/// the path is UTF-8), the same contents, the patches of each side, and an
/// empty patch between the two sides.
pub open spec fn carries_conflict(m: proto::ConflictDiff, c: ConflictDiff) -> bool {
    &&& (vstd::utf8::valid_utf8(c.path@) ==> m.path@ == vstd::utf8::decode_utf8(c.path@))
    &&& m.contents@ == c.contents@
    &&& carries_patch(m.ours@, c.ours)
    &&& carries_patch(m.theirs@, c.theirs)
    &&& m.ours_to_theirs@.len() == 0
}

/// Whether `ms` are the wire forms of the conflicts `cs`, in order.
pub open spec fn carries_conflicts(ms: Seq<proto::ConflictDiff>, cs: Seq<ConflictDiff>) -> bool {
    &&& ms.len() == cs.len()
    &&& forall|i: int| 0 <= i < ms.len() ==> carries_conflict(#[trigger] ms[i], cs[i])
}

/// The wire form of a conflict: its path as text, the contents, and the
/// patches of each side; the patch between the two sides is left empty.
pub fn conflict_message(c: &ConflictDiff) -> (m: proto::ConflictDiff)
    ensures
        carries_conflict(m, *c),
{
    proto::ConflictDiff {
        path: bytes2path(c.path.as_slice()),
        ours: patch_messages(&c.ours),
        theirs: patch_messages(&c.theirs),
        ours_to_theirs: Vec::new(),
        contents: c.contents.clone(),
    }
}

/// The wire forms of conflicts, in order.
pub fn conflict_messages(cs: &Vec<ConflictDiff>) -> (ms: Vec<proto::ConflictDiff>)
    ensures
        carries_conflicts(ms@, cs@),
{
    let mut ms: Vec<proto::ConflictDiff> = Vec::new();
    let mut i: usize = 0;
    while i < cs.len()
        invariant
            i <= cs.len(),
            ms@.len() == i,
            forall|j: int| 0 <= j < i ==> carries_conflict(#[trigger] ms@[j], cs@[j]),
        decreases cs.len() - i,
    {
        ms.push(conflict_message(&cs[i]));
        i = i + 1;
    }
    ms
}

/// The wire form of a merge's outcome: the new commit, or the conflicts.
pub fn merge_response(outcome: &Merge) -> (r: proto::MergeResponse)
    ensures
        match outcome {
            Merge::Merged(c) => r.commit == *c && r.conflicts@.len() == 0,
            Merge::Conflicts(cs) => r.commit is None && carries_conflicts(r.conflicts@, cs@),
        },
{
    match outcome {
        Merge::Merged(c) => proto::MergeResponse { commit: c.clone(), conflicts: Vec::new() },
        Merge::Conflicts(cs) => proto::MergeResponse { commit: None, conflicts: conflict_messages(cs) },
    }
}

/// The wire form of a revert's outcome: the new commit, or the conflicts.
pub fn revert_response(outcome: &Merge) -> (r: proto::RevertResponse)
    ensures
        match outcome {
            Merge::Merged(c) => r.commit == *c && r.conflicts@.len() == 0,
            Merge::Conflicts(cs) => r.commit is None && carries_conflicts(r.conflicts@, cs@),
        },
{
    match outcome {
        Merge::Merged(c) => proto::RevertResponse { commit: c.clone(), conflicts: Vec::new() },
        Merge::Conflicts(cs) => proto::RevertResponse { commit: None, conflicts: conflict_messages(cs) },
    }
}

} // verus!
