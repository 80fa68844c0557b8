//! The decisions made around each repository operation: which references
//! are named, which branches and tags are shown and in which order, what a
//! merge or a revert does next, and what is recorded.
use vstd::prelude::*;

use vstd::string::{StrSliceExecFns, StringSliceAdditionalSpecFns};
use vstd::utf8::{decode_utf8, valid_utf8};

use crate::error::{Error, GitError};
use crate::json::{empty_object_json, empty_object_text, json_parses, json_patch_between, json_patch_ops, patch_operations};
use crate::proto::DiffStatus;
use crate::time::{in_time_range, seconds_or_epoch, timestamp_from_second};
use crate::validate::opt_string_view;

verus! {

broadcast use vstd::seq_lib::group_seq_properties;

/// Name of the branch that every repository starts with.
pub open spec fn primary_branch() -> Seq<char> {
    "main"@
}

/// Who made a commit or a tag.
#[derive(Clone, Debug)]
pub struct Author {
    pub name: String,
    pub email: String,
}

/// Mathematical value of an [`Author`].
pub struct AuthorView {
    pub name: Seq<char>,
    pub email: Seq<char>,
}

impl View for Author {
    type V = AuthorView;

    open spec fn view(&self) -> AuthorView {
        AuthorView { name: self.name@, email: self.email@ }
    }
}

impl Author {
    /// A copy of this author.
    pub fn duplicate(&self) -> (a: Author)
        ensures
            a@ == self@,
    {
        Author { name: self.name.clone(), email: self.email.clone() }
    }
}

/// The views of a sequence of strings.
pub open spec fn strings_view(s: Seq<String>) -> Seq<Seq<char>> {
    s.map_values(|x: String| x@)
}

/// The full reference name of a local branch.
pub open spec fn branch_ref_spec(branch: Seq<char>) -> Seq<char> {
    "refs/heads/"@ + branch
}

/// The full reference name of the local branch `branch`.
pub fn branch_ref(branch: &str) -> (r: String)
    ensures
        r@ == branch_ref_spec(branch@),
{
    let mut r = String::from_str("refs/heads/");
    r.append(branch);
    r
}

/// Whether a branch is listed: every local branch but the primary one.
pub open spec fn is_listed_branch(name: Seq<char>) -> bool {
    name != primary_branch()
}

/// The local branches that are listed, in the order they were read.
pub fn listed_branches(names: &Vec<String>) -> (r: Vec<String>)
    ensures
        strings_view(r@) == listed(strings_view(names@)),
{
    let primary = String::from_str("main");
    let mut r: Vec<String> = Vec::new();
    let mut i: usize = 0;
    while i < names.len()
        invariant
            primary@ == primary_branch(),
            i <= names.len(),
            strings_view(r@) == listed(strings_view(names@.take(i as int))),
        decreases names.len() - i,
    {
        let ghost before = r@;
        if names[i] != primary {
            r.push(names[i].clone());
        }
        proof {
            let pred = listed_branch_pred();
            assert(strings_view(names@.take(i + 1)) =~= strings_view(names@.take(i as int)).push(names@[i as int]@));
            strings_view(names@.take(i as int)).lemma_filter_push(names@[i as int]@, pred);
            assert(strings_view(r@) =~= if pred(names@[i as int]@) {
                strings_view(before).push(names@[i as int]@)
            } else {
                strings_view(before)
            });
        }
        i = i + 1;
    }
    assert(names@.take(names.len() as int) =~= names@);
    r
}

/// Whether a branch is listed, as a predicate.
pub open spec fn listed_branch_pred() -> spec_fn(Seq<char>) -> bool {
    |n: Seq<char>| is_listed_branch(n)
}

/// The branches listed out of `names`, in order.
pub open spec fn listed(names: Seq<Seq<char>>) -> Seq<Seq<char>> {
    names.filter(listed_branch_pred())
}

/// No branch that is listed is the primary one, and every other branch read
/// is listed.
pub proof fn listed_branches_exclude_primary(names: Seq<Seq<char>>)
    ensures
        forall|i: int| 0 <= i < listed(names).len() ==> #[trigger] listed(names)[i] != primary_branch(),
        forall|i: int|
            0 <= i < names.len() && names[i] != primary_branch() ==> listed(names).contains(#[trigger] names[i]),
{
    let pred = listed_branch_pred();
    assert forall|i: int| 0 <= i < listed(names).len() implies #[trigger] listed(names)[i] != primary_branch() by {
        names.lemma_filter_pred(pred, i);
    }
    assert forall|i: int| 0 <= i < names.len() && names[i] != primary_branch() implies listed(names).contains(
        #[trigger] names[i],
    ) by {
        names.lemma_filter_contains(pred, i);
    }
}

/// A tag as the service reports it.
#[derive(Debug)]
pub struct Tag {
    pub name: String,
    pub commit: String,
    /// Seconds since the Unix epoch.
    pub time: i64,
    pub author: Author,
}

/// Mathematical value of a [`Tag`].
pub struct TagView {
    pub name: Seq<char>,
    pub commit: Seq<char>,
    pub time: i64,
    pub author: AuthorView,
}

impl View for Tag {
    type V = TagView;

    open spec fn view(&self) -> TagView {
        TagView { name: self.name@, commit: self.commit@, time: self.time, author: self.author@ }
    }
}

/// The views of a sequence of tags.
pub open spec fn tags_view(s: Seq<Tag>) -> Seq<TagView> {
    s.map_values(|t: Tag| t@)
}

/// Whether `s` runs from the newest tag to the oldest.
pub open spec fn newest_first(s: Seq<TagView>) -> bool {
    forall|i: int, j: int| 0 <= i < j < s.len() ==> s[i].time >= s[j].time
}

/// Whether a tag was made at second `t`.
pub open spec fn made_at_second(t: i64) -> spec_fn(TagView) -> bool {
    |x: TagView| x.time == t
}

/// The tags of `s` made at second `t`, in their order in `s`.
pub open spec fn made_at(s: Seq<TagView>, t: i64) -> Seq<TagView> {
    s.filter(made_at_second(t))
}

proof fn lemma_filter_empty(s: Seq<TagView>, t: i64)
    requires
        forall|i: int| 0 <= i < s.len() ==> s[i].time != t,
    ensures
        made_at(s, t) == Seq::<TagView>::empty(),
{
    let f = made_at(s, t);
    if f.len() > 0 {
        s.lemma_filter_pred(made_at_second(t), 0);
        s.lemma_filter_contains_rev(made_at_second(t), f[0]);
        assert(f.contains(f[0]));
        assert(false);
    }
    assert(f =~= Seq::<TagView>::empty());
}

/// Orders tags from the newest to the oldest; tags made at the same second
/// keep their order.
pub fn sort_newest_first(tags: Vec<Tag>) -> (r: Vec<Tag>)
    ensures
        newest_first(tags_view(r@)),
        forall|t: i64| #[trigger] made_at(tags_view(r@), t) == made_at(tags_view(tags@), t),
        tags_view(r@).to_multiset() == tags_view(tags@).to_multiset(),
{
    broadcast use vstd::seq_lib::group_to_multiset_ensures;

    let ghost input = tags_view(tags@);
    let mut remaining = tags;
    let mut sorted: Vec<Tag> = Vec::new();
    let ghost n = remaining.len();
    let mut k: usize = 0;
    while remaining.len() > 0
        invariant
            k + remaining.len() == n,
            n == input.len(),
            tags_view(remaining@) == input.skip(k as int),
            newest_first(tags_view(sorted@)),
            forall|t: i64| #[trigger] made_at(tags_view(sorted@), t) == made_at(input.take(k as int), t),
            tags_view(sorted@).to_multiset() == input.take(k as int).to_multiset(),
        decreases remaining.len(),
    {
        let ghost prev_remaining = remaining@;
        let x = remaining.remove(0);
        assert(x@ == input[k as int]) by {
            assert(tags_view(prev_remaining)[0] == x@);
        }
        proof {
            assert(tags_view(remaining@) =~= tags_view(prev_remaining).drop_first());
            assert(input.skip(k as int).drop_first() =~= input.skip(k + 1));
        }
        let mut p: usize = 0;
        while p < sorted.len() && sorted[p].time >= x.time
            invariant
                p <= sorted.len(),
                forall|i: int| 0 <= i < p ==> #[trigger] sorted@[i].time >= x.time,
            decreases sorted.len() - p,
        {
            p = p + 1;
        }
        let ghost old_view = tags_view(sorted@);
        let ghost xv = x@;
        proof {
            assert forall|i: int| p <= i < old_view.len() implies #[trigger] old_view[i].time < xv.time by {
                assert(old_view[p as int].time < xv.time);
                assert(old_view[p as int].time >= old_view[i].time);
            }
        }
        sorted.insert(p, x);
        let ghost a = old_view.take(p as int);
        let ghost b = old_view.skip(p as int);
        proof {
            assert(tags_view(sorted@) =~= old_view.insert(p as int, xv));
            assert(input.take(k + 1) =~= input.take(k as int).push(xv));
            assert(tags_view(sorted@) =~= a + seq![xv] + b);
            assert forall|t: i64| #[trigger] made_at(tags_view(sorted@), t) == made_at(input.take(k + 1), t) by {
                let pred = made_at_second(t);
                assert(made_at(old_view, t) == made_at(input.take(k as int), t));
                Seq::filter_distributes_over_add(a + seq![xv], b, pred);
                Seq::filter_distributes_over_add(a, seq![xv], pred);
                Seq::filter_distributes_over_add(a, b, pred);
                assert(old_view =~= a + b);
                assert(input.take(k + 1) =~= input.take(k as int).push(xv));
                input.take(k as int).lemma_filter_push(xv, pred);
                reveal_with_fuel(Seq::filter, 2);
                if t == xv.time {
                    lemma_filter_empty(b, t);
                } else {
                    assert(seq![xv].filter(pred) =~= Seq::<TagView>::empty()) by {
                        assert(seq![xv].drop_last() =~= Seq::<TagView>::empty());
                    }
                }
            }
        }
        k = k + 1;
    }
    assert(input.take(k as int) =~= input);
    sorted
}

/// The person and time recorded with a commit or an annotated tag.
#[derive(Debug)]
pub struct Signature {
    pub name: String,
    pub email: String,
    /// Seconds since the Unix epoch.
    pub seconds: i64,
}

/// What the repository holds about one tag reference.
#[derive(Debug)]
pub struct TagReference {
    /// The reference's full name, or `None` where it is not UTF-8.
    pub name: Option<String>,
    /// The commit that the reference resolves to.
    pub commit: String,
    /// The tagger of an annotated tag, where the tag records one.
    pub tagger: Option<Signature>,
    /// The author of the commit.
    pub commit_author: Signature,
}

/// Whose name and time a tag is reported with: its tagger where it has one,
/// else the author of its commit.
pub open spec fn signer(r: TagReference) -> Signature {
    match r.tagger {
        Some(t) => t,
        None => r.commit_author,
    }
}

/// The short name of a reference: without `refs/tags/` where it starts so.
pub open spec fn tag_name_spec(full: Seq<char>) -> Seq<char> {
    if "refs/tags/"@.is_prefix_of(full) {
        full.skip(10)
    } else {
        full
    }
}

/// The tag that a reference is reported as, if its name can be read.
pub open spec fn reference_tag(r: TagReference) -> Option<TagView> {
    match r.name {
        Some(n) => Some(
            TagView {
                name: tag_name_spec(n@),
                commit: r.commit@,
                time: signer(r).seconds,
                author: AuthorView { name: signer(r).name@, email: signer(r).email@ },
            },
        ),
        None => None,
    }
}

/// The tags that a sequence of references is reported as, in order.
pub open spec fn reference_tags(refs: Seq<TagReference>) -> Seq<TagView>
    decreases refs.len(),
{
    if refs.len() == 0 {
        seq![]
    } else {
        reference_tags(refs.drop_last()) + match reference_tag(refs.last()) {
            Some(t) => seq![t],
            None => seq![],
        }
    }
}

/// The short name of the reference `full`.
pub fn tag_name(full: &str) -> (r: String)
    ensures
        r@ == tag_name_spec(full@),
{
    let prefix = "refs/tags/";
    proof {
        reveal_strlit("refs/tags/");
    }
    let n = full.unicode_len();
    if n < 10 {
        return String::from_str(full);
    }
    let mut i: usize = 0;
    while i < 10
        invariant
            prefix@ == "refs/tags/"@,
            prefix@.len() == 10,
            n == full@.len(),
            n >= 10,
            i <= 10,
            forall|j: int| 0 <= j < i ==> full@[j] == prefix@[j],
        decreases 10 - i,
    {
        if full.get_char(i) != prefix.get_char(i) {
            assert(!"refs/tags/"@.is_prefix_of(full@));
            return String::from_str(full);
        }
        i = i + 1;
    }
    assert("refs/tags/"@.is_prefix_of(full@)) by {
        assert(full@.subrange(0, 10) =~= prefix@);
    }
    let rest = full.substring_char(10, n);
    assert(rest@ =~= full@.skip(10));
    String::from_str(rest)
}

/// The tags of the tag references, in their order. It fails where a
/// signer's time is not one that a timestamp holds.
pub fn collect_tags(refs: Vec<TagReference>) -> (r: Result<Vec<Tag>, Error>)
    ensures
        r is Ok <==> forall|i: int| 0 <= i < refs@.len() ==> in_time_range(#[trigger] signer(refs@[i]).seconds),
        r matches Ok(tags) ==> tags_view(tags@) == reference_tags(refs@),
        r matches Err(e) ==> e is Time,
{
    let ghost all = refs@;
    let mut tags: Vec<Tag> = Vec::new();
    let mut remaining = refs;
    let total = remaining.len();
    let mut k: usize = 0;
    while remaining.len() > 0
        invariant
            k + remaining.len() == all.len(),
            all.len() == total,
            all == refs@,
            remaining@ == all.skip(k as int),
            forall|i: int| 0 <= i < k ==> in_time_range(#[trigger] signer(all[i]).seconds),
            tags_view(tags@) == reference_tags(all.take(k as int)),
        decreases remaining.len(),
    {
        let reference = remaining.remove(0);
        assert(reference == all[k as int]);
        proof {
            assert(all.take(k + 1).drop_last() =~= all.take(k as int));
        }
        let signature = match reference.tagger {
            Some(t) => t,
            None => reference.commit_author,
        };
        assert(signature == signer(all[k as int]));
        let time = match timestamp_from_second(signature.seconds) {
            Ok(t) => t,
            Err(e) => {
                assert(!in_time_range(signer(all[k as int]).seconds));
                return Err(Error::Time(e));
            },
        };
        match reference.name {
            Some(full) => {
                let ghost before = tags@;
                let tag = Tag {
                    name: tag_name(full.as_str()),
                    commit: reference.commit,
                    time,
                    author: Author { name: signature.name, email: signature.email },
                };
                tags.push(tag);
                assert(tags_view(tags@) =~= tags_view(before) + seq![reference_tag(all[k as int])->0]);
            },
            None => {
                assert(reference_tags(all.take(k + 1)) =~= reference_tags(all.take(k as int)));
            },
        }
        assert(remaining@ =~= all.skip(k + 1));
        k = k + 1;
    }
    assert(all.take(k as int) =~= all);
    Ok(tags)
}

/// The tag reported for one just made: its name, the id of the tag object,
/// its author, and the time of its signature.
pub fn created_tag(name: &str, tag_id: String, author: &Author, seconds: i64) -> (r: Result<Tag, Error>)
    ensures
        r is Ok <==> in_time_range(seconds),
        r matches Ok(t) ==> t@ == (TagView { name: name@, commit: tag_id@, time: seconds, author: author@ }),
        r matches Err(e) ==> e is Time,
{
    let time = match timestamp_from_second(seconds) {
        Ok(t) => t,
        Err(e) => return Err(Error::Time(e)),
    };
    Ok(Tag { name: String::from_str(name), commit: tag_id, time, author: author.duplicate() })
}

/// Order in which a log lists commits.
#[derive(Clone, Copy, Debug, PartialEq, Eq, Structural)]
pub enum LogOrder {
    Normal,
    Reverse,
}

impl Default for LogOrder {
    fn default() -> (o: LogOrder)
        ensures
            o == LogOrder::Normal,
    {
        LogOrder::Normal
    }
}

/// How a history walk is sorted.
#[derive(Clone, Copy, Debug, PartialEq, Eq, Structural)]
pub struct Sorting {
    pub topological: bool,
    pub reverse: bool,
}

impl LogOrder {
    /// The sorting of the history walk for this order: always topological,
    /// and reversed for [`LogOrder::Reverse`].
    pub fn sorting(self) -> (s: Sorting)
        ensures
            s.topological,
            s.reverse == (self == LogOrder::Reverse),
    {
        match self {
            LogOrder::Normal => Sorting { topological: true, reverse: false },
            LogOrder::Reverse => Sorting { topological: true, reverse: true },
        }
    }
}

/// One commit of a log.
#[derive(Debug)]
pub struct LogEntry {
    pub message: String,
    pub author: Author,
    pub commit: String,
    /// Seconds since the Unix epoch.
    pub time: i64,
}

impl LogEntry {
    /// The log entry of a commit; a commit time that a timestamp cannot hold
    /// is reported as the Unix epoch.
    pub fn new(message: String, author: Author, commit: String, seconds: i64) -> (e: LogEntry)
        ensures
            e.message == message,
            e.author == author,
            e.commit == commit,
            e.time == if in_time_range(seconds) { seconds } else { 0 },
    {
        LogEntry { message, author, commit, time: seconds_or_epoch(seconds) }
    }
}

/// The message of a squash merge: a heading, then one line per merged
/// commit that has a summary.
pub open spec fn summary_lines(summaries: Seq<Option<Seq<char>>>) -> Seq<char>
    decreases summaries.len(),
{
    if summaries.len() == 0 {
        seq![]
    } else {
        summary_lines(summaries.drop_last()) + match summaries.last() {
            Some(line) => "- "@ + line + "\n"@,
            None => seq![],
        }
    }
}

/// The views of a sequence of optional strings.
pub open spec fn opt_strings_view(s: Seq<Option<String>>) -> Seq<Option<Seq<char>>> {
    s.map_values(|o: Option<String>| opt_string_view(o))
}

/// The message of a squash merge of commits with these summaries, oldest
/// first; a commit without a summary adds no line.
pub fn squash_merge_message(summaries: &Vec<Option<String>>) -> (m: String)
    ensures
        m@ == "Merged branch\n"@ + summary_lines(opt_strings_view(summaries@)),
{
    let mut m = String::from_str("Merged branch\n");
    let mut i: usize = 0;
    while i < summaries.len()
        invariant
            i <= summaries.len(),
            m@ == "Merged branch\n"@ + summary_lines(opt_strings_view(summaries@.take(i as int))),
        decreases summaries.len() - i,
    {
        proof {
            assert(opt_strings_view(summaries@.take(i + 1)).drop_last() =~= opt_strings_view(summaries@.take(i as int)));
        }
        match &summaries[i] {
            Some(line) => {
                let ghost before = m@;
                m.append("- ");
                m.append(line.as_str());
                m.append("\n");
                assert(m@ =~= before + ("- "@ + line@ + "\n"@));
            },
            None => {},
        }
        i = i + 1;
    }
    assert(summaries@.take(summaries.len() as int) =~= summaries@);
    m
}

/// The message of the commit that reverts `commit`.
pub fn revert_message(commit: &str) -> (m: String)
    ensures
        m@ == "Reverted "@ + commit@,
{
    let mut m = String::from_str("Reverted ");
    m.append(commit);
    m
}

/// Which side of a merge commit a revert keeps.
#[derive(Clone, Copy, Debug, PartialEq, Eq, Structural)]
pub enum Strategy {
    KeepMainline,
    KeepOther,
}

impl Default for Strategy {
    fn default() -> (s: Strategy)
        ensures
            s == Strategy::KeepMainline,
    {
        Strategy::KeepMainline
    }
}

/// The parent that a revert of a commit with `parent_count` parents is taken
/// against (the mainline, counted from 0). A root commit cannot be reverted;
/// a merge commit is reverted against its second parent only when the other
/// side is to be kept.
pub fn revert_mainline(parent_count: usize, strategy: Option<Strategy>) -> (r: Result<u32, Error>)
    ensures
        parent_count == 0 <==> r is Err,
        r matches Ok(m) ==> m < parent_count,
        r matches Err(e) ==> e matches Error::Git(g) && !g.not_found
            && g.message@ == "Initial root commit cannot be reverted"@,
        parent_count == 1 ==> r == Ok::<u32, Error>(0),
        parent_count > 1 ==> r == Ok::<u32, Error>(
            if strategy == Some(Strategy::KeepOther) {
                1
            } else {
                0
            },
        ),
{
    if parent_count == 0 {
        Err(Error::Git(GitError::from_message("Initial root commit cannot be reverted")))
    } else if parent_count == 1 {
        Ok(0)
    } else {
        match strategy {
            Some(Strategy::KeepOther) => Ok(1),
            _ => Ok(0),
        }
    }
}

/// What a merge, a revert or a conflict resolution does once the merged
/// index is known.
#[derive(Clone, Copy, Debug, PartialEq, Eq, Structural)]
pub enum MergeStep {
    /// Report the conflicts and change nothing.
    ReportConflicts,
    /// Report success without writing anything.
    DryRun,
    /// Write the merged tree and commit it.
    Commit,
}

/// The next step once the merged index is known: conflicts are reported
/// first, then a dry run stops, and otherwise the result is committed.
pub fn merge_step(has_conflicts: bool, dry_run: bool) -> (s: MergeStep)
    ensures
        s == if has_conflicts {
            MergeStep::ReportConflicts
        } else if dry_run {
            MergeStep::DryRun
        } else {
            MergeStep::Commit
        },
{
    if has_conflicts {
        MergeStep::ReportConflicts
    } else if dry_run {
        MergeStep::DryRun
    } else {
        MergeStep::Commit
    }
}

/// Whether a lookup of a local branch found it, from libgit2's answer: a
/// missing branch is an answer, any other error is passed on.
pub fn branch_found(lookup: Result<(), GitError>) -> (r: Result<bool, Error>)
    ensures
        match lookup {
            Ok(()) => r == Ok::<bool, Error>(true),
            Err(g) => if g.not_found {
                r == Ok::<bool, Error>(false)
            } else {
                r == Err::<bool, Error>(Error::Git(g))
            },
        },
{
    match lookup {
        Ok(()) => Ok(true),
        Err(g) => {
            if g.not_found {
                Ok(false)
            } else {
                Err(Error::Git(g))
            }
        },
    }
}

/// Whether a commit of files writes a new commit: not when the branch
/// exists and its tree is the tree that the files give.
pub fn tree_changed(parent_tree: &Option<String>, new_tree: &String) -> (r: bool)
    ensures
        r == !(parent_tree matches Some(t) && t@ == new_tree@),
{
    match parent_tree {
        Some(t) => *t != *new_tree,
        None => true,
    }
}

/// How far two branches have moved apart.
#[derive(Debug)]
pub struct GraphStatus {
    pub common_ancestor_commit: String,
    pub commits_ahead: i32,
    pub commits_behind: i32,
}

impl GraphStatus {
    /// The status from the merge base and the commit counts on each side;
    /// the counts are narrowed to 32 bits as the wire format has them.
    pub fn new(common_ancestor_commit: String, ahead: usize, behind: usize) -> (g: GraphStatus)
        ensures
            g.common_ancestor_commit == common_ancestor_commit,
            g.commits_ahead == ahead as i32,
            g.commits_behind == behind as i32,
    {
        GraphStatus {
            common_ancestor_commit,
            commits_ahead: ahead as i32,
            commits_behind: behind as i32,
        }
    }
}

/// How a file changed between two trees, as libgit2 reports it.
#[derive(Clone, Copy, Debug, PartialEq, Eq, Structural)]
pub enum Delta {
    Unmodified,
    Added,
    Deleted,
    Modified,
    Renamed,
    Copied,
    Ignored,
    Untracked,
    Typechange,
    Unreadable,
    Conflicted,
}

/// The wire status of a change.
pub open spec fn diff_status_spec(d: Delta) -> DiffStatus {
    match d {
        Delta::Unmodified => DiffStatus::Unmodified,
        Delta::Added => DiffStatus::Added,
        Delta::Deleted => DiffStatus::Deleted,
        Delta::Modified => DiffStatus::Modified,
        Delta::Renamed => DiffStatus::Renamed,
        Delta::Copied => DiffStatus::Copied,
        Delta::Ignored => DiffStatus::Ignored,
        Delta::Untracked => DiffStatus::Untracked,
        Delta::Typechange => DiffStatus::Typechange,
        Delta::Unreadable => DiffStatus::Unreadable,
        Delta::Conflicted => DiffStatus::Conflicted,
    }
}

/// The wire status of a change: each kind of change to the status of that
/// name.
pub fn diff_status(d: Delta) -> (s: DiffStatus)
    ensures
        s == diff_status_spec(d),
{
    match d {
        Delta::Unmodified => DiffStatus::Unmodified,
        Delta::Added => DiffStatus::Added,
        Delta::Deleted => DiffStatus::Deleted,
        Delta::Modified => DiffStatus::Modified,
        Delta::Renamed => DiffStatus::Renamed,
        Delta::Copied => DiffStatus::Copied,
        Delta::Ignored => DiffStatus::Ignored,
        Delta::Untracked => DiffStatus::Untracked,
        Delta::Typechange => DiffStatus::Typechange,
        Delta::Unreadable => DiffStatus::Unreadable,
        Delta::Conflicted => DiffStatus::Conflicted,
    }
}

/// Whether the old version of a changed file is read: an added file has
/// none.
pub open spec fn reads_old(status: Delta) -> bool {
    status != Delta::Added
}

/// Whether the new version of a changed file is read: a deleted file has
/// none.
pub open spec fn reads_new(status: Delta) -> bool {
    status != Delta::Deleted
}

/// Whether the old version of a changed file is to be read.
pub fn reads_old_side(status: Delta) -> (r: bool)
    ensures
        r == reads_old(status),
{
    status != Delta::Added
}

/// Whether the new version of a changed file is to be read.
pub fn reads_new_side(status: Delta) -> (r: bool)
    ensures
        r == reads_new(status),
{
    status != Delta::Deleted
}

/// The JSON text of the document stored in an index entry, or `{}` where the
/// entry is absent.
pub open spec fn document_text(contents: Option<Seq<u8>>) -> Seq<u8> {
    match contents {
        Some(bytes) => bytes,
        None => empty_object_text(),
    }
}

/// The JSON text of the document stored in an index entry: its blob, or `{}`
/// where the entry is absent. It is read as JSON where the patches between
/// documents are computed.
pub fn object_to_json(contents: &Option<Vec<u8>>) -> (r: Vec<u8>)
    ensures
        r@ == document_text(match contents {
            Some(bytes) => Some(bytes@),
            None => None,
        }),
{
    match contents {
        Some(bytes) => bytes.clone(),
        None => empty_object_json(),
    }
}

/// The document on the old side of a changed file: `{}` for an added file,
/// whose old bytes are not read.
pub open spec fn old_document(status: Delta, old: Seq<u8>) -> Seq<u8> {
    if reads_old(status) {
        old
    } else {
        empty_object_text()
    }
}

/// The document on the new side of a changed file: `{}` for a deleted file,
/// whose new bytes are not read.
pub open spec fn new_document(status: Delta, new: Seq<u8>) -> Seq<u8> {
    if reads_new(status) {
        new
    } else {
        empty_object_text()
    }
}

/// The JSON patch between the old and the new version of a changed file. A
/// side that does not exist (the old side of an added file, the new side of
/// a deleted one) counts as `{}`, and its bytes are not read.
pub fn diff_to_patch(status: Delta, old: &[u8], new: &[u8]) -> (r: Result<json_patch::Patch, Error>)
    ensures
        r is Ok <==> (reads_old(status) ==> json_parses(old@)) && (reads_new(status) ==> json_parses(new@)),
        r matches Ok(p) ==> patch_operations(p) == json_patch_ops(old_document(status, old@), new_document(status, new@)),
        r matches Err(e) ==> e is Json,
{
    let empty = empty_object_json();
    let old_doc: &[u8] = if status == Delta::Added {
        empty.as_slice()
    } else {
        old
    };
    let new_doc: &[u8] = if status == Delta::Deleted {
        empty.as_slice()
    } else {
        new
    };
    match json_patch_between(old_doc, new_doc) {
        Ok(patch) => Ok(patch),
        Err(e) => Err(Error::Json(e)),
    }
}

/// A changed file and the JSON patch between its versions.
#[derive(Debug)]
pub struct PatchDiff {
    pub status: Delta,
    pub old_path: Option<String>,
    pub new_path: Option<String>,
    pub patch: json_patch::Patch,
}

/// Whether a change is reported in a diff: additions, deletions,
/// modifications and renames that have a path on the side that exists.
pub open spec fn reported_change(status: Delta, old_path: Option<String>, new_path: Option<String>) -> bool {
    &&& (status == Delta::Added || status == Delta::Deleted || status == Delta::Modified
        || status == Delta::Renamed)
    &&& if status == Delta::Deleted {
        old_path is Some
    } else {
        new_path is Some
    }
}

/// The entry of a diff for one change, when it is reported and both of its
/// sides read as JSON; `None` otherwise.
pub fn patch_diff(status: Delta, old_path: Option<String>, new_path: Option<String>, old: &[u8], new: &[u8]) -> (r: Option<PatchDiff>)
    ensures
        r is Some <==> reported_change(status, old_path, new_path) && (reads_old(status) ==> json_parses(old@))
            && (reads_new(status) ==> json_parses(new@)),
        r matches Some(d) ==> d.status == status && d.old_path == old_path && d.new_path == new_path
            && patch_operations(d.patch) == json_patch_ops(old_document(status, old@), new_document(status, new@)),
{
    let kept = status == Delta::Added || status == Delta::Deleted || status == Delta::Modified
        || status == Delta::Renamed;
    if !kept {
        return None;
    }
    let has_path = if status == Delta::Deleted {
        old_path.is_some()
    } else {
        new_path.is_some()
    };
    if !has_path {
        return None;
    }
    match diff_to_patch(status, old, new) {
        Ok(patch) => Some(PatchDiff { status, old_path, new_path, patch }),
        Err(_) => None,
    }
}

/// Whether a diff between two trees leaves nothing to merge.
pub fn is_clean(changed_files: usize) -> (r: bool)
    ensures
        r == (changed_files == 0),
{
    changed_files == 0
}

/// One side of a conflicted index entry: its path and the contents of its
/// blob.
#[derive(Debug)]
pub struct ConflictSide {
    pub path: Vec<u8>,
    pub blob: Vec<u8>,
}

/// A conflicted file and the JSON patches of each side against their common
/// ancestor.
#[derive(Debug)]
pub struct ConflictDiff {
    /// The path of the file, as bytes.
    pub path: Vec<u8>,
    /// The contents on our side, else on their side, else nothing.
    pub contents: Vec<u8>,
    pub ours: json_patch::Patch,
    pub theirs: json_patch::Patch,
}

/// The first side present among ours, theirs and the ancestor.
pub open spec fn first_side(our: Option<ConflictSide>, their: Option<ConflictSide>, ancestor: Option<ConflictSide>) -> Option<ConflictSide> {
    match our {
        Some(s) => Some(s),
        None => match their {
            Some(s) => Some(s),
            None => ancestor,
        },
    }
}

/// Whether a side that is present reads as JSON.
pub open spec fn side_parses(side: Option<ConflictSide>) -> bool {
    match side {
        Some(s) => json_parses(s.blob@),
        None => true,
    }
}

/// The JSON text of one side of a conflict: its blob, or `{}` where the side
/// is absent.
pub open spec fn side_document(side: Option<ConflictSide>) -> Seq<u8> {
    match side {
        Some(s) => s.blob@,
        None => empty_object_text(),
    }
}

/// The contents of one side's blob, where the side is present.
fn side_blob(side: &Option<ConflictSide>) -> (r: Option<Vec<u8>>)
    ensures
        match side {
            Some(s) => r matches Some(b) && b@ == s.blob@,
            None => r is None,
        },
{
    match side {
        Some(s) => Some(s.blob.clone()),
        None => None,
    }
}

/// The report of one conflict: `None` when no side is present; otherwise the
/// path of the first side present (ours, theirs, the ancestor), the contents
/// of ours or else theirs, and the patches of ours and of theirs against the
/// ancestor, a missing side counting as `{}`. It fails when a present side
/// does not read as JSON.
pub fn conflict_diff(our: Option<ConflictSide>, their: Option<ConflictSide>, ancestor: Option<ConflictSide>) -> (r: Result<Option<ConflictDiff>, Error>)
    ensures
        first_side(our, their, ancestor) is None <==> r matches Ok(None),
        first_side(our, their, ancestor) is Some ==> (r is Ok <==> side_parses(ancestor) && side_parses(our)
            && side_parses(their)),
        r matches Ok(Some(d)) ==> first_side(our, their, ancestor) matches Some(s) && d.path@ == s.path@
            && d.contents@ == match first_side(our, their, None) {
                Some(c) => c.blob@,
                None => Seq::<u8>::empty(),
            },
        r matches Ok(Some(d)) ==> patch_operations(d.ours) == json_patch_ops(side_document(ancestor), side_document(our))
            && patch_operations(d.theirs) == json_patch_ops(side_document(ancestor), side_document(their)),
        r matches Err(e) ==> e is Json,
{
    let path = match &our {
        Some(s) => s.path.clone(),
        None => match &their {
            Some(s) => s.path.clone(),
            None => match &ancestor {
                Some(s) => s.path.clone(),
                None => return Ok(None),
            },
        },
    };
    let contents = match &our {
        Some(s) => s.blob.clone(),
        None => match &their {
            Some(s) => s.blob.clone(),
            None => Vec::new(),
        },
    };
    let ancestor_doc = object_to_json(&side_blob(&ancestor));
    let our_doc = object_to_json(&side_blob(&our));
    let their_doc = object_to_json(&side_blob(&their));
    let ours = match json_patch_between(ancestor_doc.as_slice(), our_doc.as_slice()) {
        Ok(p) => p,
        Err(e) => return Err(Error::Json(e)),
    };
    let theirs = match json_patch_between(ancestor_doc.as_slice(), their_doc.as_slice()) {
        Ok(p) => p,
        Err(e) => return Err(Error::Json(e)),
    };
    Ok(Some(ConflictDiff { path, contents, ours, theirs }))
}

/// What a merge leads to: the new commit (none for a dry run), or the
/// conflicts that stopped it.
#[derive(Debug)]
pub enum Merge {
    Merged(Option<String>),
    Conflicts(Vec<ConflictDiff>),
}

/// An index entry, in plain values.
#[derive(Debug)]
pub struct IndexEntry {
    pub ctime: (i32, u32),
    pub mtime: (i32, u32),
    pub dev: u32,
    pub ino: u32,
    pub mode: u32,
    pub uid: u32,
    pub gid: u32,
    pub file_size: u32,
    /// The id of the blob, as bytes.
    pub id: Vec<u8>,
    pub flags: u16,
    pub flags_extended: u16,
    pub path: Vec<u8>,
}

/// The index entry that stages `contents`, stored as blob `blob_id`, at
/// `path`: a regular non-executable file (mode `0o100644`) with zero times,
/// ids and flags, its size narrowed to 32 bits, and its path as UTF-8 bytes.
pub fn new_index_entry(blob_id: Vec<u8>, path: &str, contents: &[u8]) -> (e: IndexEntry)
    ensures
        e.ctime == (0i32, 0u32),
        e.mtime == (0i32, 0u32),
        e.dev == 0 && e.ino == 0 && e.uid == 0 && e.gid == 0,
        e.mode == 0o100644,
        e.file_size == contents@.len() as u32,
        e.id@ == blob_id@,
        e.flags == 0 && e.flags_extended == 0,
        e.path@ == path.spec_bytes(),
{
    IndexEntry {
        ctime: (0, 0),
        mtime: (0, 0),
        dev: 0,
        ino: 0,
        mode: 0o100644,
        uid: 0,
        gid: 0,
        file_size: contents.len() as u32,
        id: blob_id,
        flags: 0,
        flags_extended: 0,
        path: vstd::slice::slice_to_vec(path.as_bytes()),
    }
}

/// `name` added to the path `base`, as a Unix `PathBuf::push` does: an
/// absolute `name` replaces the path, otherwise a separator goes between
/// them unless `base` is empty or already ends with one.
pub open spec fn join_path(base: Seq<char>, name: Seq<char>) -> Seq<char> {
    if name.len() > 0 && name[0] == '/' {
        name
    } else if base.len() == 0 || base.last() == '/' {
        base + name
    } else {
        base + "/"@ + name
    }
}

/// `name` added to the path `base`.
pub fn join(base: &str, name: &str) -> (r: String)
    ensures
        r@ == join_path(base@, name@),
{
    proof {
        reveal_strlit("/");
    }
    let name_len = name.unicode_len();
    if name_len > 0 && name.get_char(0) == '/' {
        return String::from_str(name);
    }
    let base_len = base.unicode_len();
    let mut r = String::from_str(base);
    if base_len > 0 && base.get_char(base_len - 1) != '/' {
        r.append("/");
    }
    r.append(name);
    r
}

/// Calls `String::from_utf8_lossy`. Claimed, as its documentation says: on
/// valid UTF-8 it gives the characters that the bytes encode. Not stated:
/// what stands in for invalid sequences.
#[verifier::external_body]
fn lossy_text(bytes: &[u8]) -> (r: String)
    ensures
        valid_utf8(bytes@) ==> r@ == decode_utf8(bytes@),
{
    String::from_utf8_lossy(bytes).into_owned()
}

/// The path that the bytes of an index entry name, as text: the characters
/// that the bytes encode, where they are UTF-8.
pub fn bytes2path(b: &[u8]) -> (p: String)
    ensures
        valid_utf8(b@) ==> p@ == decode_utf8(b@),
{
    lossy_text(b)
}

/// The name that libgit2 gives a kind of change.
pub open spec fn delta_name(d: Delta) -> Seq<char> {
    match d {
        Delta::Unmodified => "Unmodified"@,
        Delta::Added => "Added"@,
        Delta::Deleted => "Deleted"@,
        Delta::Modified => "Modified"@,
        Delta::Renamed => "Renamed"@,
        Delta::Copied => "Copied"@,
        Delta::Ignored => "Ignored"@,
        Delta::Untracked => "Untracked"@,
        Delta::Typechange => "Typechange"@,
        Delta::Unreadable => "Unreadable"@,
        Delta::Conflicted => "Conflicted"@,
    }
}

/// The name of a wire status.
pub open spec fn status_name(s: DiffStatus) -> Seq<char> {
    match s {
        DiffStatus::Unmodified => "Unmodified"@,
        DiffStatus::Added => "Added"@,
        DiffStatus::Deleted => "Deleted"@,
        DiffStatus::Modified => "Modified"@,
        DiffStatus::Renamed => "Renamed"@,
        DiffStatus::Copied => "Copied"@,
        DiffStatus::Ignored => "Ignored"@,
        DiffStatus::Untracked => "Untracked"@,
        DiffStatus::Typechange => "Typechange"@,
        DiffStatus::Unreadable => "Unreadable"@,
        DiffStatus::Conflicted => "Conflicted"@,
    }
}

/// Every kind of change is reported under the wire status of the same name.
pub proof fn diff_status_keeps_name(d: Delta)
    ensures
        status_name(diff_status_spec(d)) == delta_name(d),
{
}

/// A tag reference is reported, after those before it, with its tagger's
/// name, email and time where the tag records a tagger, and with its
/// commit author's where it does not; a reference whose name cannot be read
/// is left out.
pub proof fn tag_reported_by_its_signer(refs: Seq<TagReference>, r: TagReference)
    ensures
        r.name is None ==> reference_tags(refs.push(r)) == reference_tags(refs),
        r.name matches Some(n) ==> reference_tags(refs.push(r)) == reference_tags(refs).push(
            TagView {
                name: tag_name_spec(n@),
                commit: r.commit@,
                time: match r.tagger {
                    Some(t) => t.seconds,
                    None => r.commit_author.seconds,
                },
                author: match r.tagger {
                    Some(t) => AuthorView { name: t.name@, email: t.email@ },
                    None => AuthorView { name: r.commit_author.name@, email: r.commit_author.email@ },
                },
            },
        ),
{
    assert(refs.push(r).drop_last() =~= refs);
}

/// The lines of a squash merge message: none for no commits; a commit with
/// a summary adds the line `- ` and its summary, one without adds nothing;
/// and the lines of two runs of commits are those of the first, then those
/// of the second.
pub proof fn summary_lines_law(a: Seq<Option<Seq<char>>>, b: Seq<Option<Seq<char>>>, line: Seq<char>)
    ensures
        summary_lines(Seq::<Option<Seq<char>>>::empty()) == Seq::<char>::empty(),
        summary_lines(a.push(Some(line))) == summary_lines(a) + "- "@ + line + "\n"@,
        summary_lines(a.push(None)) == summary_lines(a),
        summary_lines(a + b) == summary_lines(a) + summary_lines(b),
    decreases b.len(),
{
    assert(a.push(Some(line)).drop_last() =~= a);
    assert(a.push(None::<Seq<char>>).drop_last() =~= a);
    if b.len() == 0 {
        assert(a + b =~= a);
        assert(summary_lines(a) + summary_lines(b) =~= summary_lines(a));
    } else {
        summary_lines_law(a, b.drop_last(), line);
        assert((a + b).drop_last() =~= a + b.drop_last());
        assert((a + b).last() == b.last());
        assert(summary_lines(a + b) =~= summary_lines(a) + summary_lines(b));
    }
}

/// Joining a path: an absolute name stands alone; a relative one follows
/// the whole base, directly where the base is empty or ends with `/`, else
/// after one `/`; so the joined path always ends with the name and, for a
/// relative name, starts with the base.
pub proof fn join_path_law(base: Seq<char>, name: Seq<char>)
    ensures
        name.len() > 0 && name[0] == '/' ==> join_path(base, name) == name,
        !(name.len() > 0 && name[0] == '/') && (base.len() == 0 || base.last() == '/') ==> join_path(base, name)
            == base + name,
        !(name.len() > 0 && name[0] == '/') && base.len() > 0 && base.last() != '/' ==> join_path(base, name)
            == base + seq!['/'] + name,
        name.is_suffix_of(join_path(base, name)),
        !(name.len() > 0 && name[0] == '/') ==> base.is_prefix_of(join_path(base, name)),
{
    reveal_strlit("/");
    let j = join_path(base, name);
    assert(j.subrange(j.len() - name.len(), j.len() as int) =~= name);
    if !(name.len() > 0 && name[0] == '/') {
        assert(j.subrange(0, base.len() as int) =~= base);
    }
}

/// The short name of a tag reference: a name under `refs/tags/` loses
/// exactly that prefix, and any other name is kept whole.
pub proof fn tag_name_law(full: Seq<char>, n: Seq<char>)
    ensures
        tag_name_spec("refs/tags/"@ + n) == n,
        !"refs/tags/"@.is_prefix_of(full) ==> tag_name_spec(full) == full,
        "refs/tags/"@.is_prefix_of(full) ==> "refs/tags/"@ + tag_name_spec(full) == full,
{
    reveal_strlit("refs/tags/");
    let p = "refs/tags/"@;
    assert(p.is_prefix_of(p + n)) by {
        assert((p + n).subrange(0, p.len() as int) =~= p);
    }
    assert((p + n).skip(10) =~= n);
    if p.is_prefix_of(full) {
        assert(full.subrange(0, 10) =~= p);
        assert(p + full.skip(10) =~= full);
    }
}

} // verus!
