use tinvoke_types::export::{
    Action, Event, ExportRun, OUTPUT_DIR_NAME, ROOT_VARIABLE, UNEXPECTED_EVENT,
};
use tinvoke_types::record::{Field, RecordDefinition, SemanticType};
use tinvoke_types::registry::known_records;
use tinvoke_types::user::User;

fn feed(records: Vec<RecordDefinition>, events: Vec<Event>) -> Vec<Action> {
    let (mut run, first) = ExportRun::begin(records);
    let mut actions = vec![first];
    for event in events {
        let (next, action) = run.step(event);
        run = next;
        actions.push(action);
    }
    actions
}

fn probe(dir: &str) -> Action {
    Action::Probe { dir: dir.to_string() }
}

fn remove(dir: &str) -> Action {
    Action::RemoveAll { dir: dir.to_string() }
}

fn create(dir: &str) -> Action {
    Action::CreateAll { dir: dir.to_string() }
}

fn export(dir: &str, record: RecordDefinition) -> Action {
    Action::Export { dir: dir.to_string(), record }
}

fn abort(description: &str) -> Action {
    Action::Abort { description: description.to_string() }
}

fn root(path: &str) -> Event {
    Event::Root(path.to_string())
}

fn failed(description: &str) -> Event {
    Event::Failed(description.to_string())
}

fn order_record() -> RecordDefinition {
    RecordDefinition::new(
        "Order".to_string(),
        vec![
            Field::new("order_id".to_string(), SemanticType::Integer),
            Field::new("note".to_string(), SemanticType::Text),
        ],
    )
}

#[test]
fn run_begins_by_reading_the_root() {
    let (_, first) = ExportRun::begin(known_records());
    assert_eq!(first, Action::ReadRoot);
    assert_eq!(ROOT_VARIABLE, "CARGO_MANIFEST_DIR");
}

#[test]
fn run_over_existing_directory_removes_then_creates_then_exports() {
    let actions = feed(
        known_records(),
        vec![root("/proj"), Event::Exists(true), Event::Done, Event::Done, Event::Done],
    );
    assert_eq!(
        actions,
        vec![
            Action::ReadRoot,
            probe("/proj/generated-types"),
            remove("/proj/generated-types"),
            create("/proj/generated-types"),
            export("/proj/generated-types", User::definition()),
            Action::Finish,
        ]
    );
}

#[test]
fn run_over_missing_directory_creates_without_removing() {
    let actions = feed(
        known_records(),
        vec![root("/proj"), Event::Exists(false), Event::Done, Event::Done],
    );
    assert_eq!(
        actions,
        vec![
            Action::ReadRoot,
            probe("/proj/generated-types"),
            create("/proj/generated-types"),
            export("/proj/generated-types", User::definition()),
            Action::Finish,
        ]
    );
}

#[test]
fn output_directory_lies_below_the_root() {
    assert_eq!(OUTPUT_DIR_NAME, "generated-types");
    assert_eq!(feed(Vec::new(), vec![root("/proj/")])[1], probe("/proj/generated-types"));
    assert_eq!(feed(Vec::new(), vec![root("proj")])[1], probe("proj/generated-types"));
    assert_eq!(feed(Vec::new(), vec![root("")])[1], probe("generated-types"));
}

#[test]
fn missing_root_aborts_at_once_and_writes_nothing() {
    let actions = feed(
        known_records(),
        vec![
            failed("environment variable not found"),
            Event::Done,
            Event::Exists(true),
            root("/proj"),
            Event::Done,
        ],
    );
    assert_eq!(actions[0], Action::ReadRoot);
    for action in &actions[1..] {
        assert_eq!(*action, abort("environment variable not found"));
    }
}

#[test]
fn failed_removal_aborts_before_creating() {
    let actions = feed(
        known_records(),
        vec![root("/proj"), Event::Exists(true), failed("permission denied"), Event::Done],
    );
    assert_eq!(
        actions,
        vec![
            Action::ReadRoot,
            probe("/proj/generated-types"),
            remove("/proj/generated-types"),
            abort("permission denied"),
            abort("permission denied"),
        ]
    );
}

#[test]
fn failed_creation_aborts_and_exports_nothing() {
    for found in [false, true] {
        let mut events = vec![root("/readonly"), Event::Exists(found)];
        if found {
            events.push(Event::Done);
        }
        events.push(failed("read-only file system"));
        events.push(Event::Done);
        events.push(Event::Done);
        let actions = feed(known_records(), events);
        assert!(actions.contains(&create("/readonly/generated-types")));
        assert!(!actions.iter().any(|action| matches!(action, Action::Export { .. })));
        assert_eq!(actions[actions.len() - 3], abort("read-only file system"));
        assert_eq!(actions[actions.len() - 1], abort("read-only file system"));
    }
}

#[test]
fn failed_export_aborts_and_undoes_nothing() {
    let records = vec![User::definition(), order_record()];
    let actions = feed(
        records,
        vec![
            root("/proj"),
            Event::Exists(false),
            Event::Done,
            Event::Done,
            failed("no space left on device"),
            Event::Done,
        ],
    );
    assert_eq!(
        actions,
        vec![
            Action::ReadRoot,
            probe("/proj/generated-types"),
            create("/proj/generated-types"),
            export("/proj/generated-types", User::definition()),
            export("/proj/generated-types", order_record()),
            abort("no space left on device"),
            abort("no space left on device"),
        ]
    );
}

#[test]
fn failed_probe_aborts() {
    let actions = feed(known_records(), vec![root("/proj"), failed("interrupted")]);
    assert_eq!(actions[2], abort("interrupted"));
}

#[test]
fn run_without_records_finishes_after_the_reset() {
    let actions = feed(
        Vec::new(),
        vec![root("/proj"), Event::Exists(true), Event::Done, Event::Done],
    );
    assert_eq!(
        actions,
        vec![
            Action::ReadRoot,
            probe("/proj/generated-types"),
            remove("/proj/generated-types"),
            create("/proj/generated-types"),
            Action::Finish,
        ]
    );
}

#[test]
fn records_are_exported_in_the_order_given() {
    let forward = feed(
        vec![User::definition(), order_record()],
        vec![root("/p"), Event::Exists(false), Event::Done, Event::Done, Event::Done],
    );
    assert_eq!(forward[3], export("/p/generated-types", User::definition()));
    assert_eq!(forward[4], export("/p/generated-types", order_record()));
    assert_eq!(forward[5], Action::Finish);

    let backward = feed(
        vec![order_record(), User::definition()],
        vec![root("/p"), Event::Exists(false), Event::Done, Event::Done, Event::Done],
    );
    assert_eq!(backward[3], export("/p/generated-types", order_record()));
    assert_eq!(backward[4], export("/p/generated-types", User::definition()));
    assert_eq!(backward[5], Action::Finish);
}

#[test]
fn finished_run_stays_finished() {
    let actions = feed(
        Vec::new(),
        vec![
            root("/proj"),
            Event::Exists(false),
            Event::Done,
            Event::Done,
            failed("late"),
            root("/other"),
            Event::Exists(true),
        ],
    );
    assert_eq!(actions[3], Action::Finish);
    assert_eq!(actions[4], Action::Finish);
    assert_eq!(actions[5], Action::Finish);
    assert_eq!(actions[6], Action::Finish);
    assert_eq!(actions[7], Action::Finish);
}

#[test]
fn failed_run_keeps_its_first_failure() {
    let actions = feed(known_records(), vec![failed("first"), failed("second")]);
    assert_eq!(actions[1], abort("first"));
    assert_eq!(actions[2], abort("first"));
}

#[test]
fn event_that_does_not_answer_the_pending_action_aborts() {
    assert_eq!(feed(known_records(), vec![Event::Done])[1], abort(UNEXPECTED_EVENT));
    assert_eq!(feed(known_records(), vec![Event::Exists(true)])[1], abort(UNEXPECTED_EVENT));
    assert_eq!(feed(known_records(), vec![root("/p"), root("/p")])[2], abort(UNEXPECTED_EVENT));
    assert_eq!(feed(known_records(), vec![root("/p"), Event::Done])[2], abort(UNEXPECTED_EVENT));
    assert_eq!(
        feed(known_records(), vec![root("/p"), Event::Exists(true), Event::Exists(true)])[3],
        abort(UNEXPECTED_EVENT)
    );
    assert_eq!(
        feed(known_records(), vec![root("/p"), Event::Exists(false), root("/p")])[3],
        abort(UNEXPECTED_EVENT)
    );
    assert_eq!(
        feed(
            known_records(),
            vec![root("/p"), Event::Exists(false), Event::Done, Event::Exists(false)]
        )[4],
        abort(UNEXPECTED_EVENT)
    );
    assert_eq!(UNEXPECTED_EVENT, "event does not answer the pending action");
}

#[test]
fn actions_after_the_reset_do_not_depend_on_what_the_probe_found() {
    let records = vec![User::definition(), order_record()];
    let found = feed(
        records.clone(),
        vec![root("/p"), Event::Exists(true), Event::Done, Event::Done, Event::Done, Event::Done],
    );
    let missing = feed(
        records,
        vec![root("/p"), Event::Exists(false), Event::Done, Event::Done, Event::Done],
    );
    assert_eq!(found[3..], missing[2..]);
}
