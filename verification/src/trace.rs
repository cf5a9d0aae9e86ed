//! Whole runs: the actions that a run names when it is fed a sequence of
//! events, and what holds of them.

use vstd::prelude::*;
use crate::export::{ActionView, EventView, OUTPUT_DIR_NAME, PhaseView, next, output_dir};
use crate::path::lemma_joined_relative;
use crate::record::RecordView;

verus! {

/// The actions that a run over `records` names, one for each of `events`,
/// starting from `phase`.
pub open spec fn trace(records: Seq<RecordView>, phase: PhaseView, events: Seq<EventView>) -> Seq<
    ActionView,
>
    decreases events.len(),
{
    if events.len() == 0 {
        Seq::empty()
    } else {
        seq![next(records, phase, events.first()).1] + trace(
            records,
            next(records, phase, events.first()).0,
            events.drop_first(),
        )
    }
}

/// Where a run over `records` stands after `events`, starting from `phase`.
pub open spec fn phase_after(
    records: Seq<RecordView>,
    phase: PhaseView,
    events: Seq<EventView>,
) -> PhaseView
    decreases events.len(),
{
    if events.len() == 0 {
        phase
    } else {
        phase_after(records, next(records, phase, events.first()).0, events.drop_first())
    }
}

/// Whether carrying out `action` changes the file system.
pub open spec fn writes(action: ActionView) -> bool {
    action is RemoveAll || action is CreateAll || action is Export
}

/// The directory that `action` is carried out on, where it has one.
pub open spec fn addressed(action: ActionView) -> Option<Seq<char>> {
    match action {
        ActionView::Probe { dir } => Some(dir),
        ActionView::RemoveAll { dir } => Some(dir),
        ActionView::CreateAll { dir } => Some(dir),
        ActionView::Export { dir, .. } => Some(dir),
        _ => None,
    }
}

/// Whether a run in `phase` is bound to `dir`: it waits on an action on `dir`,
/// or it has ended.
pub open spec fn bound_to(phase: PhaseView, dir: Seq<char>) -> bool {
    match phase {
        PhaseView::ReadingRoot => false,
        PhaseView::Probing { dir: bound } => bound == dir,
        PhaseView::Removing { dir: bound } => bound == dir,
        PhaseView::Creating { dir: bound } => bound == dir,
        PhaseView::Exporting { dir: bound, .. } => bound == dir,
        PhaseView::Finished => true,
        PhaseView::Failed { .. } => true,
    }
}

/// Whether the run has ended, in success or in failure.
pub open spec fn ended(phase: PhaseView) -> bool {
    phase is Finished || phase is Failed
}

/// What a run that has ended answers to every event.
pub open spec fn last_word(phase: PhaseView) -> ActionView
    recommends
        ended(phase),
{
    match phase {
        PhaseView::Failed { description } => ActionView::Abort { description },
        _ => ActionView::Finish,
    }
}

/// The events of a reset in which nothing fails: the root is read, the probe
/// answers `found`, and where something was found its removal is carried out.
pub open spec fn reset_events(root: Seq<char>, found: bool) -> Seq<EventView> {
    if found {
        seq![EventView::Root { path: root }, EventView::Exists { found }, EventView::Done]
    } else {
        seq![EventView::Root { path: root }, EventView::Exists { found }]
    }
}

/// The actions of a reset of `dir` in which nothing fails: probe, remove
/// where something was found, create.
pub open spec fn reset_actions(dir: Seq<char>, found: bool) -> Seq<ActionView> {
    if found {
        seq![
            ActionView::Probe { dir },
            ActionView::RemoveAll { dir },
            ActionView::CreateAll { dir },
        ]
    } else {
        seq![ActionView::Probe { dir }, ActionView::CreateAll { dir }]
    }
}

/// `count` times the report that an action was carried out.
pub open spec fn all_done(count: nat) -> Seq<EventView> {
    Seq::new(count, |i: int| EventView::Done)
}

/// The events of a run in which nothing fails, over `count` records.
pub open spec fn granted_events(root: Seq<char>, found: bool, count: nat) -> Seq<EventView> {
    reset_events(root, found) + all_done(count + 1)
}

/// What follows the creation of `dir` where nothing fails: the export of each
/// of `records` into `dir`, in order, and then the end of the run.
pub open spec fn export_actions(records: Seq<RecordView>, dir: Seq<char>) -> Seq<ActionView> {
    Seq::new(
        records.len() + 1,
        |i: int|
            if i < records.len() {
                ActionView::Export { dir, record: records[i] }
            } else {
                ActionView::Finish
            },
    )
}

/// A run names one action for each event.
pub proof fn lemma_trace_len(records: Seq<RecordView>, phase: PhaseView, events: Seq<EventView>)
    ensures
        trace(records, phase, events).len() == events.len(),
    decreases events.len(),
{
    if events.len() > 0 {
        lemma_trace_len(records, next(records, phase, events.first()).0, events.drop_first());
    }
}

/// Feeding a run `first` and then `second` is feeding it `first`, and then
/// feeding `second` to the run as it stands after that.
pub proof fn lemma_trace_concat(
    records: Seq<RecordView>,
    phase: PhaseView,
    first: Seq<EventView>,
    second: Seq<EventView>,
)
    ensures
        trace(records, phase, first + second) == trace(records, phase, first) + trace(
            records,
            phase_after(records, phase, first),
            second,
        ),
        phase_after(records, phase, first + second) == phase_after(
            records,
            phase_after(records, phase, first),
            second,
        ),
    decreases first.len(),
{
    if first.len() == 0 {
        assert(first + second =~= second);
    } else {
        let then = next(records, phase, first.first()).0;
        assert((first + second).first() == first.first());
        assert((first + second).drop_first() =~= first.drop_first() + second);
        lemma_trace_concat(records, then, first.drop_first(), second);
    }
}

/// The first event of a run decides its first action; the rest is fed to the
/// run as it stands after that.
pub proof fn lemma_trace_first(
    records: Seq<RecordView>,
    phase: PhaseView,
    event: EventView,
    rest: Seq<EventView>,
)
    ensures
        trace(records, phase, seq![event] + rest) == seq![next(records, phase, event).1] + trace(
            records,
            next(records, phase, event).0,
            rest,
        ),
        phase_after(records, phase, seq![event] + rest) == phase_after(
            records,
            next(records, phase, event).0,
            rest,
        ),
{
    let events = seq![event] + rest;
    assert(events.first() == event);
    assert(events.drop_first() =~= rest);
}

/// A run that has ended stays where it is and names no further work: to every
/// event it repeats its last word.
pub proof fn lemma_ended_run_stays_ended(
    records: Seq<RecordView>,
    phase: PhaseView,
    events: Seq<EventView>,
)
    requires
        ended(phase),
    ensures
        phase_after(records, phase, events) == phase,
        trace(records, phase, events) == Seq::new(events.len(), |i: int| last_word(phase)),
    decreases events.len(),
{
    if events.len() > 0 {
        lemma_ended_run_stays_ended(records, phase, events.drop_first());
    }
    assert(trace(records, phase, events) =~= Seq::new(events.len(), |i: int| last_word(phase)));
}

/// A run that is bound to a directory stays bound to it, and every action it
/// names that is carried out on a directory is carried out on that one.
pub proof fn lemma_bound_run_stays_bound(
    records: Seq<RecordView>,
    phase: PhaseView,
    dir: Seq<char>,
    events: Seq<EventView>,
)
    requires
        bound_to(phase, dir),
    ensures
        bound_to(phase_after(records, phase, events), dir),
        forall|i: int|
            0 <= i < events.len() ==> ({
                let action = #[trigger] trace(records, phase, events)[i];
                addressed(action) is Some ==> addressed(action) == Some(dir)
            }),
    decreases events.len(),
{
    if events.len() > 0 {
        let then = next(records, phase, events.first()).0;
        lemma_bound_run_stays_bound(records, then, dir, events.drop_first());
        lemma_trace_len(records, then, events.drop_first());
        let rest = trace(records, then, events.drop_first());
        assert forall|i: int| 0 <= i < events.len() implies {
            let action = #[trigger] trace(records, phase, events)[i];
            addressed(action) is Some ==> addressed(action) == Some(dir)
        } by {
            if i > 0 {
                assert(trace(records, phase, events)[i] == rest[i - 1]);
            }
        }
    }
}

/// The output directory lies below the project root and is never the root
/// itself: its path is the root's, then `generated-types`, with at most one
/// separator between them.
pub proof fn lemma_output_dir_below_root(root: Seq<char>)
    ensures
        root.is_prefix_of(output_dir(root)),
        OUTPUT_DIR_NAME@.is_suffix_of(output_dir(root)),
        output_dir(root) != root,
{
    reveal_strlit("generated-types");
    lemma_joined_relative(root, OUTPUT_DIR_NAME@);
}

/// Once the root is read, a run touches the output directory of that root and
/// nothing else: every action it names that is carried out on a directory is
/// carried out on that one, whatever is reported.
pub proof fn lemma_run_addresses_output_dir_only(
    records: Seq<RecordView>,
    root: Seq<char>,
    later: Seq<EventView>,
)
    ensures
        forall|i: int|
            0 <= i <= later.len() ==> ({
                let action = #[trigger] trace(
                    records,
                    PhaseView::ReadingRoot,
                    seq![EventView::Root { path: root }] + later,
                )[i];
                addressed(action) is Some ==> addressed(action) == Some(output_dir(root))
            }),
{
    let dir = output_dir(root);
    let probing = PhaseView::Probing { dir };
    lemma_trace_first(records, PhaseView::ReadingRoot, EventView::Root { path: root }, later);
    lemma_bound_run_stays_bound(records, probing, dir, later);
    let rest = trace(records, probing, later);
    lemma_trace_len(records, probing, later);
    assert forall|i: int| 0 <= i <= later.len() implies {
        let action = #[trigger] trace(
            records,
            PhaseView::ReadingRoot,
            seq![EventView::Root { path: root }] + later,
        )[i];
        addressed(action) is Some ==> addressed(action) == Some(dir)
    } by {
        if i > 0 {
            assert(trace(
                records,
                PhaseView::ReadingRoot,
                seq![EventView::Root { path: root }] + later,
            )[i] == rest[i - 1]);
        }
    }
}

/// The first failure ends the run: wherever a run stands, once a failure is
/// reported it names no action that changes the file system, whatever is
/// reported afterwards.
pub proof fn lemma_failure_is_final(
    records: Seq<RecordView>,
    phase: PhaseView,
    description: Seq<char>,
    later: Seq<EventView>,
)
    ensures
        ended(phase_after(records, phase, seq![EventView::Failed { description }] + later)),
        forall|i: int|
            0 <= i <= later.len() ==> !writes(
                #[trigger] trace(
                    records,
                    phase,
                    seq![EventView::Failed { description }] + later,
                )[i],
            ),
{
    let then = next(records, phase, EventView::Failed { description }).0;
    lemma_trace_first(records, phase, EventView::Failed { description }, later);
    lemma_ended_run_stays_ended(records, then, later);
}

/// Without a project root nothing is written: where reading the root fails,
/// the run ends at once with that failure and names no other action, whatever
/// is reported afterwards.
pub proof fn lemma_missing_root_ends_run(
    records: Seq<RecordView>,
    description: Seq<char>,
    later: Seq<EventView>,
)
    ensures
        trace(records, PhaseView::ReadingRoot, seq![EventView::Failed { description }] + later)
            == Seq::new(later.len() + 1, |i: int| ActionView::Abort { description }),
        phase_after(
            records,
            PhaseView::ReadingRoot,
            seq![EventView::Failed { description }] + later,
        ) == (PhaseView::Failed { description }),
{
    let then = PhaseView::Failed { description };
    lemma_trace_first(records, PhaseView::ReadingRoot, EventView::Failed { description }, later);
    lemma_ended_run_stays_ended(records, then, later);
    assert(trace(
        records,
        PhaseView::ReadingRoot,
        seq![EventView::Failed { description }] + later,
    ) =~= Seq::new(later.len() + 1, |i: int| ActionView::Abort { description }));
}

/// A reset in which nothing fails probes the output directory of the root,
/// removes it exactly where the probe found something, and then asks for its
/// creation.
pub proof fn lemma_granted_reset(records: Seq<RecordView>, root: Seq<char>, found: bool)
    ensures
        trace(records, PhaseView::ReadingRoot, reset_events(root, found)) == reset_actions(
            output_dir(root),
            found,
        ),
        phase_after(records, PhaseView::ReadingRoot, reset_events(root, found)) == (
            PhaseView::Creating { dir: output_dir(root) }
        ),
{
    let dir = output_dir(root);
    let none = Seq::<EventView>::empty();
    let rooted = EventView::Root { path: root };
    let probed = EventView::Exists { found };
    let probing = PhaseView::Probing { dir };
    if found {
        let removing = PhaseView::Removing { dir };
        assert(reset_events(root, found) =~= seq![rooted] + (seq![probed] + (seq![EventView::Done]
            + none)));
        lemma_trace_first(records, removing, EventView::Done, none);
        lemma_trace_first(records, probing, probed, seq![EventView::Done] + none);
        lemma_trace_first(
            records,
            PhaseView::ReadingRoot,
            rooted,
            seq![probed] + (seq![EventView::Done] + none),
        );
    } else {
        assert(reset_events(root, found) =~= seq![rooted] + (seq![probed] + none));
        lemma_trace_first(records, probing, probed, none);
        lemma_trace_first(records, PhaseView::ReadingRoot, rooted, seq![probed] + none);
    }
    assert(trace(records, PhaseView::ReadingRoot, reset_events(root, found)) =~= reset_actions(
        dir,
        found,
    ));
}

/// Where the output directory cannot be created, no record is exported: the
/// run ends with that failure, and beyond the reset it names no action but to
/// abort, whatever is reported afterwards.
pub proof fn lemma_failed_creation_exports_nothing(
    records: Seq<RecordView>,
    root: Seq<char>,
    found: bool,
    description: Seq<char>,
    later: Seq<EventView>,
)
    ensures
        trace(
            records,
            PhaseView::ReadingRoot,
            reset_events(root, found) + (seq![EventView::Failed { description }] + later),
        ) == reset_actions(output_dir(root), found) + Seq::new(
            later.len() + 1,
            |i: int| ActionView::Abort { description },
        ),
        forall|i: int|
            0 <= i < reset_events(root, found).len() + 1 + later.len() ==> !(#[trigger] trace(
                records,
                PhaseView::ReadingRoot,
                reset_events(root, found) + (seq![EventView::Failed { description }] + later),
            )[i] is Export),
{
    let dir = output_dir(root);
    let creating = PhaseView::Creating { dir };
    let failed = seq![EventView::Failed { description }];
    let then = PhaseView::Failed { description };
    lemma_granted_reset(records, root, found);
    lemma_trace_concat(records, PhaseView::ReadingRoot, reset_events(root, found), failed + later);
    lemma_trace_first(records, creating, EventView::Failed { description }, later);
    lemma_ended_run_stays_ended(records, then, later);
    assert(trace(records, creating, failed + later) =~= Seq::new(
        later.len() + 1,
        |i: int| ActionView::Abort { description },
    ));
}

/// From the export of the record at `index` on, a run in which nothing fails
/// exports the records that follow, in order, and then ends.
proof fn lemma_granted_exports(records: Seq<RecordView>, dir: Seq<char>, index: nat)
    requires
        index < records.len(),
    ensures
        trace(
            records,
            PhaseView::Exporting { dir, index },
            all_done((records.len() - index) as nat),
        ) == export_actions(records, dir).skip(index + 1int),
        phase_after(
            records,
            PhaseView::Exporting { dir, index },
            all_done((records.len() - index) as nat),
        ) == PhaseView::Finished,
    decreases records.len() - index,
{
    let phase = PhaseView::Exporting { dir, index };
    let events = all_done((records.len() - index) as nat);
    let rest = all_done((records.len() - index - 1) as nat);
    assert(events =~= seq![EventView::Done] + rest);
    lemma_trace_first(records, phase, EventView::Done, rest);
    if index + 1 < records.len() {
        lemma_granted_exports(records, dir, index + 1);
    }
    assert(trace(records, phase, events) =~= export_actions(records, dir).skip(index + 1int));
}

/// A run in which nothing fails resets the output directory of the root,
/// exports every record into it in the order of the registry, and ends.
pub proof fn lemma_granted_run(records: Seq<RecordView>, root: Seq<char>, found: bool)
    ensures
        trace(records, PhaseView::ReadingRoot, granted_events(root, found, records.len()))
            == reset_actions(output_dir(root), found) + export_actions(records, output_dir(root)),
        phase_after(records, PhaseView::ReadingRoot, granted_events(root, found, records.len()))
            == PhaseView::Finished,
{
    let dir = output_dir(root);
    let creating = PhaseView::Creating { dir };
    let exports = all_done(records.len() + 1);
    lemma_granted_reset(records, root, found);
    lemma_trace_concat(records, PhaseView::ReadingRoot, reset_events(root, found), exports);
    assert(exports =~= seq![EventView::Done] + all_done(records.len()));
    lemma_trace_first(records, creating, EventView::Done, all_done(records.len()));
    if records.len() > 0 {
        lemma_granted_exports(records, dir, 0);
    }
    assert(trace(records, creating, exports) =~= export_actions(records, dir));
}

} // verus!
