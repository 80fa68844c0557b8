//! JSON documents and the JSON patches between them, as computed by
//! `serde_json` and `json_patch`.
use vstd::prelude::*;

use json_patch::PatchOperation;

use crate::proto::{Add, DiffPatch, Move, Operation, Remove, Replace, Test};

verus! {

/// A JSON patch: a list of operations.
#[verifier::external_type_specification]
#[verifier::external_body]
pub struct ExPatch(json_patch::Patch);

/// One operation of a JSON patch.
#[verifier::external_type_specification]
#[verifier::external_body]
pub struct ExPatchOperation(json_patch::PatchOperation);

/// One JSON patch operation with its pointers and values in text form.
#[derive(Debug)]
pub enum PatchOp {
    Add { path: String, value: String },
    Remove { path: String },
    Replace { path: String, value: String },
    Move { from: String, path: String },
    Copy { from: String, path: String },
    Test { path: String, value: String },
}

/// Mathematical value of a [`PatchOp`].
pub enum PatchOpView {
    Add { path: Seq<char>, value: Seq<char> },
    Remove { path: Seq<char> },
    Replace { path: Seq<char>, value: Seq<char> },
    Move { from: Seq<char>, path: Seq<char> },
    Copy { from: Seq<char>, path: Seq<char> },
    Test { path: Seq<char>, value: Seq<char> },
}

impl View for PatchOp {
    type V = PatchOpView;

    open spec fn view(&self) -> PatchOpView {
        match self {
            PatchOp::Add { path, value } => PatchOpView::Add { path: path@, value: value@ },
            PatchOp::Remove { path } => PatchOpView::Remove { path: path@ },
            PatchOp::Replace { path, value } => PatchOpView::Replace { path: path@, value: value@ },
            PatchOp::Move { from, path } => PatchOpView::Move { from: from@, path: path@ },
            PatchOp::Copy { from, path } => PatchOpView::Copy { from: from@, path: path@ },
            PatchOp::Test { path, value } => PatchOpView::Test { path: path@, value: value@ },
        }
    }
}

/// Whether `serde_json::from_slice` reads `bytes` as a JSON document.
pub uninterp spec fn json_parses(bytes: Seq<u8>) -> bool;

/// The operations that a patch holds, in order, each with its JSON pointers
/// and its JSON values written as text.
pub uninterp spec fn patch_operations(patch: json_patch::Patch) -> Seq<PatchOpView>;

/// The text `{}`, an empty JSON object.
pub open spec fn empty_object_text() -> Seq<u8> {
    seq![123u8, 125u8]
}

/// The operations of the patch that `json_patch::diff` gives from the
/// document that `serde_json::from_slice` reads in `old` to the one it reads
/// in `new`, each with its JSON pointers and its JSON values written as text.
pub uninterp spec fn json_patch_ops(old: Seq<u8>, new: Seq<u8>) -> Seq<PatchOpView>;

/// Reads `old`, then `new`, as JSON documents with `serde_json::from_slice`
/// (the first error, through `Display`, if one fails), and calls
/// `json_patch::diff` from the first document to the second. Claimed: it
/// succeeds exactly when both read as JSON, as the text `{}` always does, and
/// the patch holds the operations named by `json_patch_ops` of the two texts.
/// Not stated: the error's text.
#[verifier::external_body]
pub(crate) fn json_patch_between(old: &[u8], new: &[u8]) -> (r: Result<json_patch::Patch, String>)
    ensures
        (r is Ok) <==> (json_parses(old@) && json_parses(new@)),
        (old@ == empty_object_text() || json_parses(old@)) && (new@ == empty_object_text() || json_parses(new@))
            ==> r is Ok,
        r matches Ok(p) ==> patch_operations(p) == json_patch_ops(old@, new@),
{
    let old_json: serde_json::Value = serde_json::from_slice(old).map_err(|e| e.to_string())?;
    let new_json: serde_json::Value = serde_json::from_slice(new).map_err(|e| e.to_string())?;
    Ok(json_patch::diff(&old_json, &new_json))
}

/// The text `{}`, an empty JSON object.
pub fn empty_object_json() -> (r: Vec<u8>)
    ensures
        r@ == empty_object_text(),
{
    let mut r: Vec<u8> = Vec::new();
    r.push(123u8);
    r.push(125u8);
    assert(r@ =~= empty_object_text());
    r
}

/// Reads the number of operations of a patch (the length of its `Vec`).
#[verifier::external_body]
fn patch_len(patch: &json_patch::Patch) -> (n: usize)
    ensures
        n == patch_operations(*patch).len(),
{
    patch.0.len()
}

/// Reads operation `i` of a patch, its pointers and its values through their
/// `Display` (compact JSON text for a `serde_json::Value`). Claimed: it is
/// element `i` of `patch_operations`.
#[verifier::external_body]
fn patch_operation(patch: &json_patch::Patch, i: usize) -> (op: PatchOp)
    requires
        i < patch_operations(*patch).len(),
    ensures
        op@ == patch_operations(*patch)[i as int],
{
    match &patch.0[i] {
        PatchOperation::Add(o) => PatchOp::Add { path: o.path.to_string(), value: o.value.to_string() },
        PatchOperation::Remove(o) => PatchOp::Remove { path: o.path.to_string() },
        PatchOperation::Replace(o) => PatchOp::Replace { path: o.path.to_string(), value: o.value.to_string() },
        PatchOperation::Move(o) => PatchOp::Move { from: o.from.to_string(), path: o.path.to_string() },
        PatchOperation::Copy(o) => PatchOp::Copy { from: o.from.to_string(), path: o.path.to_string() },
        PatchOperation::Test(o) => PatchOp::Test { path: o.path.to_string(), value: o.value.to_string() },
    }
}

/// The view of a wire patch operation, in the same shape as [`PatchOpView`].
pub open spec fn diff_patch_view(p: DiffPatch) -> Option<PatchOpView> {
    match p.operation {
        Some(Operation::Add(a)) => Some(PatchOpView::Add { path: a.path@, value: a.value@ }),
        Some(Operation::Remove(r)) => Some(PatchOpView::Remove { path: r.path@ }),
        Some(Operation::Replace(r)) => Some(PatchOpView::Replace { path: r.path@, value: r.value@ }),
        Some(Operation::Move(m)) => Some(PatchOpView::Move { from: m.from@, path: m.path@ }),
        Some(Operation::Copy(c)) => Some(PatchOpView::Copy { from: c.from@, path: c.path@ }),
        Some(Operation::Test(t)) => Some(PatchOpView::Test { path: t.path@, value: t.value@ }),
        None => None,
    }
}

/// Puts one patch operation in its wire form: each kind of operation goes to
/// the message of that kind, with the same pointers and values.
pub fn diff_patch_message(op: PatchOp) -> (m: DiffPatch)
    ensures
        diff_patch_view(m) == Some(op@),
{
    let operation = match op {
        PatchOp::Add { path, value } => Operation::Add(Add { path, value }),
        PatchOp::Remove { path } => Operation::Remove(Remove { path }),
        PatchOp::Replace { path, value } => Operation::Replace(Replace { path, value }),
        PatchOp::Move { from, path } => Operation::Move(Move { from, path }),
        PatchOp::Copy { from, path } => Operation::Copy(crate::proto::Copy { from, path }),
        PatchOp::Test { path, value } => Operation::Test(Test { path, value }),
    };
    DiffPatch { operation: Some(operation) }
}

/// The wire form of every operation of a patch, in order.
pub fn patch_messages(patch: &json_patch::Patch) -> (ms: Vec<DiffPatch>)
    ensures
        ms@.len() == patch_operations(*patch).len(),
        forall|i: int|
            0 <= i < ms@.len() ==> diff_patch_view(#[trigger] ms@[i]) == Some(patch_operations(*patch)[i]),
{
    let n = patch_len(patch);
    let mut ms: Vec<DiffPatch> = Vec::new();
    let mut i: usize = 0;
    while i < n
        invariant
            n == patch_operations(*patch).len(),
            i <= n,
            ms@.len() == i,
            forall|j: int| 0 <= j < i ==> diff_patch_view(#[trigger] ms@[j]) == Some(patch_operations(*patch)[j]),
        decreases n - i,
    {
        let op = patch_operation(patch, i);
        ms.push(diff_patch_message(op));
        i = i + 1;
    }
    ms
}

/// The kind of a patch operation, by name.
pub open spec fn op_kind(op: PatchOpView) -> Seq<char> {
    match op {
        PatchOpView::Add { .. } => "add"@,
        PatchOpView::Remove { .. } => "remove"@,
        PatchOpView::Replace { .. } => "replace"@,
        PatchOpView::Move { .. } => "move"@,
        PatchOpView::Copy { .. } => "copy"@,
        PatchOpView::Test { .. } => "test"@,
    }
}

/// The kind of a wire operation, by the name of its message.
pub open spec fn wire_kind(op: Operation) -> Seq<char> {
    match op {
        Operation::Add(_) => "add"@,
        Operation::Remove(_) => "remove"@,
        Operation::Replace(_) => "replace"@,
        Operation::Move(_) => "move"@,
        Operation::Copy(_) => "copy"@,
        Operation::Test(_) => "test"@,
    }
}

/// A wire operation stands for a patch operation of the same kind, with
/// its pointer in `path` (and `from`) and its value text in `value`.
pub proof fn wire_operation_keeps_kind(p: DiffPatch)
    ensures
        p.operation is None <==> diff_patch_view(p) is None,
        p.operation matches Some(o) ==> op_kind(diff_patch_view(p)->0) == wire_kind(o),
        p.operation matches Some(Operation::Add(a)) ==> diff_patch_view(p) == Some(
            PatchOpView::Add { path: a.path@, value: a.value@ },
        ),
        p.operation matches Some(Operation::Remove(r)) ==> diff_patch_view(p) == Some(
            PatchOpView::Remove { path: r.path@ },
        ),
        p.operation matches Some(Operation::Replace(r)) ==> diff_patch_view(p) == Some(
            PatchOpView::Replace { path: r.path@, value: r.value@ },
        ),
        p.operation matches Some(Operation::Move(m)) ==> diff_patch_view(p) == Some(
            PatchOpView::Move { from: m.from@, path: m.path@ },
        ),
        p.operation matches Some(Operation::Copy(c)) ==> diff_patch_view(p) == Some(
            PatchOpView::Copy { from: c.from@, path: c.path@ },
        ),
        p.operation matches Some(Operation::Test(t)) ==> diff_patch_view(p) == Some(
            PatchOpView::Test { path: t.path@, value: t.value@ },
        ),
{
}

} // verus!
