//! The changes that the core asks of the storage backend, and a model of
//! what they do to the objects it holds.

use vstd::prelude::*;

verus! {

/// One change to the stored objects. The driver performs the changes of a
/// plan in order and stops at the first that fails.
#[derive(Debug, Clone, PartialEq, Eq)]
pub enum StorageOp {
    /// Store `content` at `path`, replacing what was there.
    Write { path: String, content: Vec<u8> },
    /// Move the object at `from` to `to` in one step.
    Rename { from: String, to: String },
    /// Store at `to` what is stored at `from`.
    Copy { from: String, to: String },
    /// Remove the object at `path`, if there is one.
    Delete { path: String },
}

/// A change, over character and byte sequences.
pub enum StorageOpView {
    Write { path: Seq<char>, content: Seq<u8> },
    Rename { from: Seq<char>, to: Seq<char> },
    Copy { from: Seq<char>, to: Seq<char> },
    Delete { path: Seq<char> },
}

impl View for StorageOp {
    type V = StorageOpView;

    open spec fn view(&self) -> StorageOpView {
        match *self {
            StorageOp::Write { path, content } => StorageOpView::Write {
                path: path@,
                content: content@,
            },
            StorageOp::Rename { from, to } => StorageOpView::Rename { from: from@, to: to@ },
            StorageOp::Copy { from, to } => StorageOpView::Copy { from: from@, to: to@ },
            StorageOp::Delete { path } => StorageOpView::Delete { path: path@ },
        }
    }
}

/// The changes of a plan, in order.
pub open spec fn plan_view(ops: Seq<StorageOp>) -> Seq<StorageOpView> {
    ops.map_values(|op: StorageOp| op@)
}

/// The stored objects: content by path.
pub type Objects = Map<Seq<char>, Seq<u8>>;

/// Whether the backend can perform `op` on `objects`: a move or a copy
/// needs its source.
pub open spec fn can_apply(objects: Objects, op: StorageOpView) -> bool {
    match op {
        StorageOpView::Write { .. } => true,
        StorageOpView::Rename { from, .. } => objects.contains_key(from),
        StorageOpView::Copy { from, .. } => objects.contains_key(from),
        StorageOpView::Delete { .. } => true,
    }
}

/// The objects after `op`.
pub open spec fn apply(objects: Objects, op: StorageOpView) -> Objects {
    match op {
        StorageOpView::Write { path, content } => objects.insert(path, content),
        StorageOpView::Rename { from, to } => objects.remove(from).insert(to, objects[from]),
        StorageOpView::Copy { from, to } => objects.insert(to, objects[from]),
        StorageOpView::Delete { path } => objects.remove(path),
    }
}

/// Whether the backend can perform all of `ops`, one after the other.
pub open spec fn can_apply_all(objects: Objects, ops: Seq<StorageOpView>) -> bool
    decreases ops.len(),
{
    if ops.len() == 0 {
        true
    } else {
        can_apply(objects, ops[0]) && can_apply_all(apply(objects, ops[0]), ops.drop_first())
    }
}

/// The objects after all of `ops`, one after the other.
pub open spec fn apply_all(objects: Objects, ops: Seq<StorageOpView>) -> Objects
    decreases ops.len(),
{
    if ops.len() == 0 {
        objects
    } else {
        apply_all(apply(objects, ops[0]), ops.drop_first())
    }
}

/// Performing `first` and then `second` is performing their concatenation.
pub proof fn apply_all_concat(
    objects: Objects,
    first: Seq<StorageOpView>,
    second: Seq<StorageOpView>,
)
    ensures
        apply_all(objects, first + second) == apply_all(apply_all(objects, first), second),
        can_apply_all(objects, first + second) == (can_apply_all(objects, first) && can_apply_all(
            apply_all(objects, first),
            second,
        )),
    decreases first.len(),
{
    if first.len() == 0 {
        assert(first + second =~= second);
    } else {
        assert((first + second).drop_first() =~= first.drop_first() + second);
        apply_all_concat(apply(objects, first[0]), first.drop_first(), second);
    }
}

} // verus!
