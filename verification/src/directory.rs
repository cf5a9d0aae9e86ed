//! What a run does to the output directory.
//!
//! The run never sees the file system; it only names actions. This module says
//! what each action does to the output directory when it is carried out, and
//! proves what follows for a run in which nothing fails: the reset leaves the
//! directory empty, and the whole run leaves the same directory behind whatever
//! stood there before.

use vstd::prelude::*;
use crate::export::{ActionView, PhaseView, output_dir};
use crate::record::{RecordView, distinct_names};
use crate::registry::{known_record_views, lemma_known_records_distinct};
use crate::trace::{export_actions, granted_events, lemma_granted_reset, lemma_granted_run,
    reset_actions, reset_events, trace};

verus! {

/// What stands at the path of the output directory, as far as a run decides it.
pub enum Directory {
    /// Nothing exists at the path.
    Missing,
    /// A directory that was created empty and to which declarations were added
    /// since: under each record's name, the declaration of that record.
    Holding { artifacts: Map<Seq<char>, RecordView> },
    /// Anything else, such as a file or a directory with contents of its own.
    /// Nothing is claimed of it.
    Unknown,
}

/// The directory after `action` was carried out on `before`.
///
/// Removal leaves nothing at the path. Creation makes an empty directory where
/// nothing was and leaves alone what is there. An export adds the record's
/// declaration under the record's name; where the directory holds one of that
/// name already, nothing is claimed of the outcome. The other actions change
/// nothing.
pub open spec fn effect(action: ActionView, before: Directory) -> Directory {
    match action {
        ActionView::RemoveAll { .. } => Directory::Missing,
        ActionView::CreateAll { .. } => match before {
            Directory::Missing => Directory::Holding { artifacts: Map::empty() },
            _ => before,
        },
        ActionView::Export { record, .. } => match before {
            Directory::Missing => Directory::Holding {
                artifacts: Map::empty().insert(record.name, record),
            },
            Directory::Holding { artifacts } => if artifacts.dom().contains(record.name) {
                Directory::Unknown
            } else {
                Directory::Holding { artifacts: artifacts.insert(record.name, record) }
            },
            Directory::Unknown => before,
        },
        _ => before,
    }
}

/// The directory after `actions` were carried out on `before`, one after the
/// other.
pub open spec fn effects(actions: Seq<ActionView>, before: Directory) -> Directory
    decreases actions.len(),
{
    if actions.len() == 0 {
        before
    } else {
        effect(actions.last(), effects(actions.drop_last(), before))
    }
}

/// The declarations of `records`, each under the name of its record.
pub open spec fn exported(records: Seq<RecordView>) -> Map<Seq<char>, RecordView>
    decreases records.len(),
{
    if records.len() == 0 {
        Map::empty()
    } else {
        exported(records.drop_last()).insert(records.last().name, records.last())
    }
}

/// Whether the answer `found` of a probe is true of `directory`, as it is when
/// nothing else changes the directory while the run goes on.
pub open spec fn probe_agrees(found: bool, directory: Directory) -> bool {
    found <==> !(directory is Missing)
}

/// Carrying out `first` and then `second` is carrying out `second` on what
/// `first` leaves behind.
pub proof fn lemma_effects_concat(
    first: Seq<ActionView>,
    second: Seq<ActionView>,
    before: Directory,
)
    ensures
        effects(first + second, before) == effects(second, effects(first, before)),
    decreases second.len(),
{
    if second.len() == 0 {
        assert(first + second =~= first);
    } else {
        assert((first + second).last() == second.last());
        assert((first + second).drop_last() =~= first + second.drop_last());
        lemma_effects_concat(first, second.drop_last(), before);
    }
}

/// The actions of a reset leave an empty directory behind, whatever stood at
/// the path before, provided the probe's answer was true of it.
proof fn lemma_reset_actions_empty_directory(dir: Seq<char>, found: bool, before: Directory)
    requires
        probe_agrees(found, before),
    ensures
        effects(reset_actions(dir, found), before) == (
            Directory::Holding { artifacts: Map::empty() }
        ),
{
    reveal_with_fuel(effects, 4);
    let actions = reset_actions(dir, found);
    if found {
        assert(actions.drop_last() =~= seq![
            ActionView::Probe { dir },
            ActionView::RemoveAll { dir },
        ]);
        assert(actions.drop_last().drop_last() =~= seq![ActionView::Probe { dir }]);
        assert(actions.drop_last().drop_last().drop_last() =~= Seq::<ActionView>::empty());
    } else {
        assert(actions.drop_last() =~= seq![ActionView::Probe { dir }]);
        assert(actions.drop_last().drop_last() =~= Seq::<ActionView>::empty());
    }
}

/// The names under which `exported` holds a declaration are the names of the
/// records.
proof fn lemma_exported_names(records: Seq<RecordView>)
    ensures
        forall|name: Seq<char>|
            exported(records).dom().contains(name) <==> exists|i: int|
                0 <= i < records.len() && (#[trigger] records[i]).name == name,
    decreases records.len(),
{
    if records.len() > 0 {
        let fewer = records.drop_last();
        lemma_exported_names(fewer);
        assert forall|name: Seq<char>|
            exported(records).dom().contains(name) implies exists|i: int|
            0 <= i < records.len() && (#[trigger] records[i]).name == name by {
            if name == records.last().name {
                assert(records[records.len() - 1].name == name);
            } else {
                assert(exported(fewer).dom().contains(name));
                let i = choose|i: int| 0 <= i < fewer.len() && (#[trigger] fewer[i]).name == name;
                assert(records[i].name == name);
            }
        }
        assert forall|name: Seq<char>|
            (exists|i: int| 0 <= i < records.len() && (#[trigger] records[i]).name == name)
            implies exported(records).dom().contains(name) by {
            let i = choose|i: int| 0 <= i < records.len() && (#[trigger] records[i]).name == name;
            if i < records.len() - 1 {
                assert(fewer[i].name == name);
                assert(exported(fewer).dom().contains(name));
            } else {
                assert(records.last().name == name);
            }
        }
    }
}

/// Exporting the first `count` of `records` into an empty directory leaves
/// exactly their declarations in it.
proof fn lemma_exports_fill_directory(records: Seq<RecordView>, dir: Seq<char>, count: nat)
    requires
        count <= records.len(),
        distinct_names(records),
    ensures
        effects(
            export_actions(records, dir).take(count as int),
            Directory::Holding { artifacts: Map::empty() },
        ) == (Directory::Holding { artifacts: exported(records.take(count as int)) }),
    decreases count,
{
    let actions = export_actions(records, dir).take(count as int);
    if count > 0 {
        let fewer = (count - 1) as nat;
        let earlier = records.take(fewer as int);
        lemma_exports_fill_directory(records, dir, fewer);
        assert(actions.drop_last() =~= export_actions(records, dir).take(fewer as int));
        assert(actions.last() == (ActionView::Export { dir, record: records[fewer as int] }));
        assert(records.take(count as int).drop_last() =~= earlier);
        assert(records.take(count as int).last() == records[fewer as int]);
        let name = records[fewer as int].name;
        assert(!exported(earlier).dom().contains(name)) by {
            lemma_exported_names(earlier);
            if exists|i: int| 0 <= i < earlier.len() && (#[trigger] earlier[i]).name == name {
                let i = choose|i: int|
                    0 <= i < earlier.len() && (#[trigger] earlier[i]).name == name;
                assert(records[i].name == name);
            }
        }
    }
}

/// After a reset in which nothing fails the output directory exists and is
/// empty, whatever stood at its path before, provided the probe's answer was
/// true of it.
pub proof fn lemma_reset_leaves_directory_empty(
    records: Seq<RecordView>,
    root: Seq<char>,
    found: bool,
    before: Directory,
)
    requires
        probe_agrees(found, before),
    ensures
        effects(trace(records, PhaseView::ReadingRoot, reset_events(root, found)), before) == (
            Directory::Holding { artifacts: Map::empty() }
        ),
{
    lemma_granted_reset(records, root, found);
    lemma_reset_actions_empty_directory(output_dir(root), found, before);
}

/// A run in which nothing fails, over records of distinct names, leaves in the
/// output directory the declarations of its records and nothing else, whatever
/// stood at its path before, provided the probe's answer was true of it. With
/// no records the directory stays empty.
pub proof fn lemma_granted_run_fills_directory(
    records: Seq<RecordView>,
    root: Seq<char>,
    found: bool,
    before: Directory,
)
    requires
        probe_agrees(found, before),
        distinct_names(records),
    ensures
        effects(
            trace(records, PhaseView::ReadingRoot, granted_events(root, found, records.len())),
            before,
        ) == (Directory::Holding { artifacts: exported(records) }),
{
    let dir = output_dir(root);
    let exports = export_actions(records, dir);
    lemma_granted_run(records, root, found);
    lemma_effects_concat(reset_actions(dir, found), exports, before);
    lemma_reset_actions_empty_directory(dir, found, before);
    lemma_exports_fill_directory(records, dir, records.len());
    assert(exports.drop_last() =~= exports.take(records.len() as int));
    assert(exports.last() == ActionView::Finish);
    assert(records.take(records.len() as int) =~= records);
}

/// Running the export twice in succession, over records of distinct names,
/// leaves the same output directory as running it once: the second run finds
/// the directory that the first one left, and leaves it as it found it.
pub proof fn lemma_rerun_leaves_directory_unchanged(
    records: Seq<RecordView>,
    root: Seq<char>,
    found: bool,
    before: Directory,
)
    requires
        probe_agrees(found, before),
        distinct_names(records),
    ensures
        ({
            let once = effects(
                trace(records, PhaseView::ReadingRoot, granted_events(root, found, records.len())),
                before,
            );
            let twice = effects(
                trace(records, PhaseView::ReadingRoot, granted_events(root, true, records.len())),
                once,
            );
            probe_agrees(true, once) && twice == once
        }),
{
    lemma_granted_run_fills_directory(records, root, found, before);
    lemma_granted_run_fills_directory(
        records,
        root,
        true,
        Directory::Holding { artifacts: exported(records) },
    );
}

/// The export of the known records is idempotent: run twice in succession it
/// leaves the same output directory as run once, whatever stood at its path
/// before the first run, provided the probe's answer was true of it.
pub proof fn lemma_known_export_is_idempotent(root: Seq<char>, found: bool, before: Directory)
    requires
        probe_agrees(found, before),
    ensures
        ({
            let records = known_record_views();
            let once = effects(
                trace(records, PhaseView::ReadingRoot, granted_events(root, found, records.len())),
                before,
            );
            let twice = effects(
                trace(records, PhaseView::ReadingRoot, granted_events(root, true, records.len())),
                once,
            );
            once == (Directory::Holding { artifacts: exported(records) }) && twice == once
        }),
{
    lemma_known_records_distinct();
    lemma_granted_run_fills_directory(known_record_views(), root, found, before);
    lemma_rerun_leaves_directory_unchanged(known_record_views(), root, found, before);
}

} // verus!
