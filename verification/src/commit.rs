//! Committing a new metadata object: the changes to make on the storage
//! backend, in order.
//!
//! A commit is for a single writer. It takes the file version after the
//! current one without looking whether another writer took it, and it does
//! not undo what it has done when a later change fails: the temporary
//! objects it leaves behind have names of their own and disturb nothing.

use crate::decimal::{decimal, decimal_bytes, decimal_digits};
use crate::error::ErrorKind;
use crate::load::{
    load_follows_pointer, spec_load, spec_load_next, spec_load_run, LoadReply, LoadStep,
    LoadStepView,
};
use crate::naming::{
    spec_metadata_file_path, spec_metadata_prefix, spec_temp_metadata_path,
    spec_temp_version_hint_path, spec_version_hint_path, temp_metadata_path,
    temp_version_hint_path, version_hint_path,
};
use crate::storage::{
    apply_all, apply_all_concat, can_apply_all, plan_view, Objects, StorageOp, StorageOpView,
};
use crate::table::{Table, TableState};
use crate::types::TableMetadata;
use vstd::prelude::*;
use vstd::string::*;

verus! {

/// What a commit asks of the driver: to perform `changes` in order, stopping
/// at the first that fails, and after the last to load the table anew,
/// starting with the step `reload`. Until that load has finished the table
/// is as it was before the commit.
#[derive(Debug, Clone, PartialEq, Eq)]
pub struct CommitPlan {
    pub changes: Vec<StorageOp>,
    pub reload: LoadStep,
}

/// Moving the object at `from` to `to`: in one step where the backend can,
/// else by copying it and deleting the source.
pub open spec fn spec_rename_ops(can_rename: bool, from: Seq<char>, to: Seq<char>) -> Seq<
    StorageOpView,
> {
    if can_rename {
        seq![StorageOpView::Rename { from, to }]
    } else {
        seq![StorageOpView::Copy { from, to }, StorageOpView::Delete { path: from }]
    }
}

/// Pointing the pointer object at `version`: write a temporary object,
/// delete the old pointer, move the temporary object into its place.
pub open spec fn spec_version_hint_ops(version: int, token: Seq<char>, can_rename: bool) -> Seq<
    StorageOpView,
> {
    seq![
        StorageOpView::Write {
            path: spec_temp_version_hint_path(token),
            content: decimal(version),
        },
        StorageOpView::Delete { path: spec_version_hint_path() },
    ] + spec_rename_ops(can_rename, spec_temp_version_hint_path(token), spec_version_hint_path())
}

/// Committing `content` as the metadata object of file version `version`:
/// write it to a temporary object, move that into place, then point the
/// pointer object at the version.
pub open spec fn spec_commit_ops(
    version: int,
    content: Seq<u8>,
    metadata_token: Seq<char>,
    hint_token: Seq<char>,
    can_rename: bool,
) -> Seq<StorageOpView> {
    seq![StorageOpView::Write { path: spec_temp_metadata_path(metadata_token), content }]
        + spec_rename_ops(
        can_rename,
        spec_temp_metadata_path(metadata_token),
        spec_metadata_file_path(version),
    ) + spec_version_hint_ops(version, hint_token, can_rename)
}

/// A random token: `uuid::Uuid::new_v4`, written as `Uuid`'s `Display`
/// writes it, which is the hyphenated form of 36 characters. Nothing is
/// proved here, and nothing is claimed of the token but its length: that two
/// tokens differ rests on chance alone. The call takes its randomness from
/// the operating system and panics where that fails.
#[verifier::external_body]
fn fresh_token() -> (token: String)
    ensures
        token@.len() == 36,
{
    uuid::Uuid::new_v4().to_string()
}

impl Table {
    /// The changes that move the object at `src_path` to `dest_path`.
    pub fn rename(can_rename: bool, src_path: &str, dest_path: &str) -> (ops: Vec<StorageOp>)
        ensures
            plan_view(ops@) == spec_rename_ops(can_rename, src_path@, dest_path@),
    {
        let mut ops: Vec<StorageOp> = Vec::new();
        if can_rename {
            ops.push(
                StorageOp::Rename {
                    from: String::from_str(src_path),
                    to: String::from_str(dest_path),
                },
            );
        } else {
            ops.push(
                StorageOp::Copy {
                    from: String::from_str(src_path),
                    to: String::from_str(dest_path),
                },
            );
            ops.push(StorageOp::Delete { path: String::from_str(src_path) });
        }
        assert(plan_view(ops@) =~= spec_rename_ops(can_rename, src_path@, dest_path@));
        ops
    }

    /// The changes that point the pointer object at `version`, through a
    /// temporary object named by `token`.
    pub fn write_metadata_version_hint(version: i64, token: &str, can_rename: bool) -> (ops: Vec<
        StorageOp,
    >)
        ensures
            plan_view(ops@) == spec_version_hint_ops(version as int, token@, can_rename),
    {
        let tmp_version_hint_path = temp_version_hint_path(token);
        let final_version_hint_path = version_hint_path();
        let mut ops: Vec<StorageOp> = Vec::new();
        ops.push(
            StorageOp::Write {
                path: tmp_version_hint_path.clone(),
                content: decimal_bytes(version),
            },
        );
        ops.push(StorageOp::Delete { path: final_version_hint_path.clone() });
        let mut moving = Table::rename(
            can_rename,
            tmp_version_hint_path.as_str(),
            final_version_hint_path.as_str(),
        );
        let ghost head = ops@;
        let ghost tail = moving@;
        ops.append(&mut moving);
        proof {
            assert(plan_view(head) =~= seq![
                StorageOpView::Write {
                    path: spec_temp_version_hint_path(token@),
                    content: decimal(version as int),
                },
                StorageOpView::Delete { path: spec_version_hint_path() },
            ]);
            assert(plan_view(head + tail) =~= plan_view(head) + plan_view(tail));
        }
        ops
    }

    /// The changes that commit `content` as the next metadata object,
    /// through temporary objects named by the two tokens. The next file
    /// version is the current one plus one.
    pub fn plan_commit(
        &self,
        content: Vec<u8>,
        metadata_token: &str,
        hint_token: &str,
        can_rename: bool,
    ) -> (ops: Vec<StorageOp>)
        requires
            self@.wf(),
        ensures
            plan_view(ops@) == spec_commit_ops(
                self@.current_table_version + 1,
                content@,
                metadata_token@,
                hint_token@,
                can_rename,
            ),
    {
        let next_version = self.current_table_version() + 1;
        let tmp_metadata_file_path = temp_metadata_path(metadata_token);
        let final_metadata_file_path = Table::metadata_file_path(next_version);
        let mut ops: Vec<StorageOp> = Vec::new();
        ops.push(StorageOp::Write { path: tmp_metadata_file_path.clone(), content });
        let ghost head = ops@;
        let mut moving = Table::rename(
            can_rename,
            tmp_metadata_file_path.as_str(),
            final_metadata_file_path.as_str(),
        );
        let ghost middle = moving@;
        ops.append(&mut moving);
        let mut pointing = Table::write_metadata_version_hint(next_version, hint_token, can_rename);
        let ghost tail = pointing@;
        ops.append(&mut pointing);
        proof {
            assert(plan_view(head) =~= seq![
                StorageOpView::Write {
                    path: spec_temp_metadata_path(metadata_token@),
                    content: content@,
                },
            ]);
            assert(plan_view(head + middle) =~= plan_view(head) + plan_view(middle));
            assert(plan_view(head + middle + tail) =~= plan_view(head + middle) + plan_view(tail));
        }
        ops
    }

    /// Commits `content`, the serialized next metadata, as the next metadata
    /// object: the changes of `plan_commit`, with fresh names for the
    /// temporary objects, and then a load, so that the table holds what the
    /// storage holds rather than what it was handed.
    pub fn commit(&self, content: Vec<u8>, can_rename: bool) -> (plan: CommitPlan)
        requires
            self@.wf(),
        ensures
            exists|metadata_token: Seq<char>, hint_token: Seq<char>|
                metadata_token.len() == 36 && hint_token.len() == 36 && plan_view(plan.changes@)
                    == #[trigger] spec_commit_ops(
                    self@.current_table_version + 1,
                    content@,
                    metadata_token,
                    hint_token,
                    can_rename,
                ),
            plan.reload@ == spec_load(),
    {
        let metadata_token = fresh_token();
        let hint_token = fresh_token();
        let changes = self.plan_commit(
            content,
            metadata_token.as_str(),
            hint_token.as_str(),
            can_rename,
        );
        CommitPlan { changes, reload: Table::load() }
    }
}

/// Ten to the power `k`.
pub open spec fn pow10(k: nat) -> nat
    decreases k,
{
    if k == 0 {
        1
    } else {
        10 * pow10((k - 1) as nat)
    }
}

/// A number below ten to the `k` has at most `k` digits.
pub proof fn decimal_digits_len(n: nat, k: nat)
    requires
        k >= 1,
        n < pow10(k),
    ensures
        decimal_digits(n).len() <= k,
    decreases k,
{
    reveal_with_fuel(pow10, 2);
    if n >= 10 {
        decimal_digits_len(n / 10, (k - 1) as nat);
    }
}

/// The path of a metadata object ends in `n`.
proof fn metadata_file_path_last(version: int)
    ensures
        spec_metadata_file_path(version).len() > 0,
        spec_metadata_file_path(version).last() == 'n',
{
    reveal_strlit(".metadata.json");
}

/// The path of the pointer object ends in `t`.
proof fn version_hint_path_last()
    ensures
        spec_version_hint_path().len() > 0,
        spec_version_hint_path().last() == 't',
{
    reveal_strlit("version-hint.text");
}

/// The path of a temporary pointer object ends in `p`.
proof fn temp_version_hint_path_last(token: Seq<char>)
    ensures
        spec_temp_version_hint_path(token).len() > 0,
        spec_temp_version_hint_path(token).last() == 'p',
{
    reveal_strlit("-version-hint.temp");
}

/// A temporary metadata object is never the metadata object of a file
/// version: the token in its name is longer than any version number.
proof fn temp_metadata_path_is_no_version(token: Seq<char>, version: int)
    requires
        token.len() == 36,
        -0x8000_0000 <= version <= 0x8000_0000,
    ensures
        spec_temp_metadata_path(token) != spec_metadata_file_path(version),
{
    reveal_strlit("v");
    reveal_with_fuel(pow10, 12);
    if version < 0 {
        decimal_digits_len((-version) as nat, 11);
    } else {
        decimal_digits_len(version as nat, 11);
    }
    assert(spec_temp_metadata_path(token).len() == "metadata"@.len() + "/"@.len() + 36
        + ".metadata.json"@.len());
    assert(spec_metadata_file_path(version).len() == "metadata"@.len() + "/"@.len() + 1
        + decimal(version).len() + ".metadata.json"@.len());
}

/// Moving an object puts its content at the destination and leaves nothing
/// at the source, whichever way the backend moves it.
pub proof fn rename_moves(objects: Objects, can_rename: bool, from: Seq<char>, to: Seq<char>)
    requires
        objects.contains_key(from),
        from != to,
    ensures
        can_apply_all(objects, spec_rename_ops(can_rename, from, to)),
        apply_all(objects, spec_rename_ops(can_rename, from, to)) == objects.remove(from).insert(
            to,
            objects[from],
        ),
{
    reveal_with_fuel(apply_all, 3);
    reveal_with_fuel(can_apply_all, 3);
    let ops = spec_rename_ops(can_rename, from, to);
    if can_rename {
        assert(ops.drop_first() =~= Seq::<StorageOpView>::empty());
    } else {
        assert(ops.drop_first() =~= seq![StorageOpView::Delete { path: from }]);
        assert(ops.drop_first().drop_first() =~= Seq::<StorageOpView>::empty());
        assert(objects.insert(to, objects[from]).remove(from) =~= objects.remove(from).insert(
            to,
            objects[from],
        ));
    }
}

/// What a commit leaves in storage, whatever was there before: the backend
/// can perform every change of the plan, and after them the metadata object
/// of the next file version holds `content`, the pointer object holds that
/// version in decimal, the two temporary objects are gone, and every other
/// object is as it was.
pub proof fn commit_writes_next_version(
    objects: Objects,
    table: TableState,
    content: Seq<u8>,
    metadata_token: Seq<char>,
    hint_token: Seq<char>,
    can_rename: bool,
)
    requires
        table.wf(),
        metadata_token.len() == 36,
    ensures
        ({
            let next = table.current_table_version + 1;
            let ops = spec_commit_ops(next, content, metadata_token, hint_token, can_rename);
            let after = apply_all(objects, ops);
            &&& can_apply_all(objects, ops)
            &&& after.contains_key(spec_metadata_file_path(next))
            &&& after[spec_metadata_file_path(next)] == content
            &&& after.contains_key(spec_version_hint_path())
            &&& after[spec_version_hint_path()] == decimal(next)
            &&& after == objects.remove(spec_temp_metadata_path(metadata_token)).remove(
                spec_temp_version_hint_path(hint_token),
            ).insert(spec_metadata_file_path(next), content).insert(
                spec_version_hint_path(),
                decimal(next),
            )
        }),
{
    let next = table.current_table_version + 1;
    let temp = spec_temp_metadata_path(metadata_token);
    let target = spec_metadata_file_path(next);
    let temp_hint = spec_temp_version_hint_path(hint_token);
    let hint = spec_version_hint_path();
    let writing = seq![StorageOpView::Write { path: temp, content }];
    let moving = spec_rename_ops(can_rename, temp, target);
    let noting = seq![
        StorageOpView::Write { path: temp_hint, content: decimal(next) },
        StorageOpView::Delete { path: hint },
    ];
    let pointing = spec_rename_ops(can_rename, temp_hint, hint);

    temp_metadata_path_is_no_version(metadata_token, next);
    metadata_file_path_last(next);
    version_hint_path_last();
    temp_version_hint_path_last(hint_token);

    reveal_with_fuel(apply_all, 3);
    reveal_with_fuel(can_apply_all, 3);
    let o1 = apply_all(objects, writing);
    assert(writing.drop_first() =~= Seq::<StorageOpView>::empty());
    assert(o1 == objects.insert(temp, content));
    rename_moves(o1, can_rename, temp, target);
    let o2 = apply_all(o1, moving);
    let o3 = apply_all(o2, noting);
    assert(noting.drop_first() =~= seq![StorageOpView::Delete { path: hint }]);
    assert(noting.drop_first().drop_first() =~= Seq::<StorageOpView>::empty());
    assert(o3 == o2.insert(temp_hint, decimal(next)).remove(hint));
    rename_moves(o3, can_rename, temp_hint, hint);
    let o4 = apply_all(o3, pointing);

    apply_all_concat(objects, writing, moving);
    apply_all_concat(o2, noting, pointing);
    apply_all_concat(objects, writing + moving, noting + pointing);
    assert(spec_commit_ops(next, content, metadata_token, hint_token, can_rename) =~= (writing
        + moving) + (noting + pointing));
    assert(o4 =~= objects.remove(temp).remove(temp_hint).insert(target, content).insert(
        hint,
        decimal(next),
    ));
}

/// A commit followed by a load makes the next file version current. After
/// the changes of the plan the pointer object is there, so the load reads
/// it; what it holds sends the load to the metadata object of the next file
/// version, which holds the committed content; and once the driver has
/// parsed that into valid metadata, the table's file version is the earlier
/// one plus one. This needs the next file version to be a version number,
/// that is neither negative nor above `i32::MAX`.
pub proof fn commit_then_load(
    objects: Objects,
    table: TableState,
    content: Seq<u8>,
    metadata_token: Seq<char>,
    hint_token: Seq<char>,
    can_rename: bool,
    pointer: Vec<u8>,
    metadata: TableMetadata,
)
    requires
        table.wf(),
        -1 <= table.current_table_version < i32::MAX,
        metadata_token.len() == 36,
        metadata.last_updated_ms != 0,
        pointer@ == apply_all(
            objects,
            spec_commit_ops(
                table.current_table_version + 1,
                content,
                metadata_token,
                hint_token,
                can_rename,
            ),
        )[spec_version_hint_path()],
    ensures
        ({
            let next = table.current_table_version + 1;
            let ops = spec_commit_ops(next, content, metadata_token, hint_token, can_rename);
            let after = apply_all(objects, ops);
            let target = spec_metadata_file_path(next);
            let loaded = table.install(next as i32, metadata);
            &&& after.contains_key(spec_version_hint_path())
            &&& spec_load_run(
                table,
                spec_load(),
                seq![LoadReply::HintExists(true), LoadReply::HintContent(pointer)],
            ) == Some(
                (
                    LoadStepView::ReadMetadata {
                        file_version: next as i32,
                        path: target,
                        legacy_name: false,
                    },
                    table,
                ),
            )
            &&& after.contains_key(target) && after[target] == content
            &&& spec_load_run(
                table,
                spec_load(),
                seq![
                    LoadReply::HintExists(true),
                    LoadReply::HintContent(pointer),
                    LoadReply::Metadata(metadata),
                ],
            ) == Some((LoadStepView::Done, loaded))
            &&& loaded.current_table_version == table.current_table_version + 1
            &&& loaded.current_version == metadata.last_updated_ms
        }),
{
    let next = table.current_table_version + 1;
    commit_writes_next_version(objects, table, content, metadata_token, hint_token, can_rename);
    load_follows_pointer(table, next as i32, pointer, metadata);
}

/// A commit that stops between deleting the old pointer object and moving
/// the new one into place leaves no pointer object, and the metadata object
/// of the next file version in place: a load then lists the metadata root
/// instead of reading a pointer.
pub proof fn interrupted_commit_leaves_no_pointer(
    objects: Objects,
    table: TableState,
    content: Seq<u8>,
    metadata_token: Seq<char>,
    hint_token: Seq<char>,
    can_rename: bool,
)
    requires
        table.wf(),
        metadata_token.len() == 36,
    ensures
        ({
            let next = table.current_table_version + 1;
            let target = spec_metadata_file_path(next);
            let done = seq![
                StorageOpView::Write { path: spec_temp_metadata_path(metadata_token), content },
            ] + spec_rename_ops(can_rename, spec_temp_metadata_path(metadata_token), target) + seq![
                StorageOpView::Write {
                    path: spec_temp_version_hint_path(hint_token),
                    content: decimal(next),
                },
                StorageOpView::Delete { path: spec_version_hint_path() },
            ];
            let left = apply_all(objects, done);
            &&& done + spec_rename_ops(
                can_rename,
                spec_temp_version_hint_path(hint_token),
                spec_version_hint_path(),
            ) == spec_commit_ops(next, content, metadata_token, hint_token, can_rename)
            &&& !left.contains_key(spec_version_hint_path())
            &&& left.contains_key(target) && left[target] == content
            &&& spec_load_next(
                table,
                spec_load(),
                LoadReply::HintExists(left.contains_key(spec_version_hint_path())),
            ).next == Ok::<LoadStepView, ErrorKind>(
                LoadStepView::ListMetadata { prefix: spec_metadata_prefix() },
            )
        }),
{
    let next = table.current_table_version + 1;
    let temp = spec_temp_metadata_path(metadata_token);
    let target = spec_metadata_file_path(next);
    let temp_hint = spec_temp_version_hint_path(hint_token);
    let hint = spec_version_hint_path();
    let writing = seq![StorageOpView::Write { path: temp, content }];
    let moving = spec_rename_ops(can_rename, temp, target);
    let noting = seq![
        StorageOpView::Write { path: temp_hint, content: decimal(next) },
        StorageOpView::Delete { path: hint },
    ];

    temp_metadata_path_is_no_version(metadata_token, next);
    metadata_file_path_last(next);
    version_hint_path_last();
    temp_version_hint_path_last(hint_token);

    reveal_with_fuel(apply_all, 3);
    let o1 = apply_all(objects, writing);
    assert(writing.drop_first() =~= Seq::<StorageOpView>::empty());
    rename_moves(o1, can_rename, temp, target);
    let o2 = apply_all(o1, moving);
    assert(noting.drop_first() =~= seq![StorageOpView::Delete { path: hint }]);
    assert(noting.drop_first().drop_first() =~= Seq::<StorageOpView>::empty());
    apply_all_concat(objects, writing, moving);
    apply_all_concat(objects, writing + moving, noting);
    assert(writing + moving + noting + spec_rename_ops(can_rename, temp_hint, hint)
        =~= spec_commit_ops(next, content, metadata_token, hint_token, can_rename));
}

} // verus!
