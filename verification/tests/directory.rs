use std::collections::BTreeMap;
use tinvoke_types::export::{Action, Event, ExportRun};
use tinvoke_types::record::{Field, RecordDefinition, SemanticType};
use tinvoke_types::registry::known_records;
use tinvoke_types::user::User;

/// The output directory as a run leaves it: `None` while nothing is there,
/// else the record stored under each name.
type Directory = Option<BTreeMap<String, RecordDefinition>>;

/// Carries a run out against `directory`, granting every action, and returns
/// the directory as it stood when its creation was granted.
fn carry_out(records: Vec<RecordDefinition>, directory: &mut Directory) -> Directory {
    let mut after_reset: Directory = None;
    let (mut run, mut action) = ExportRun::begin(records);
    loop {
        let event = match action {
            Action::ReadRoot => Event::Root("/proj".to_string()),
            Action::Probe { dir } => {
                assert_eq!(dir, "/proj/generated-types");
                Event::Exists(directory.is_some())
            }
            Action::RemoveAll { dir } => {
                assert_eq!(dir, "/proj/generated-types");
                *directory = None;
                Event::Done
            }
            Action::CreateAll { dir } => {
                assert_eq!(dir, "/proj/generated-types");
                if directory.is_none() {
                    *directory = Some(BTreeMap::new());
                }
                after_reset = directory.clone();
                Event::Done
            }
            Action::Export { dir, record } => {
                assert_eq!(dir, "/proj/generated-types");
                let files = directory.get_or_insert_with(BTreeMap::new);
                files.insert(record.name().to_string(), record);
                Event::Done
            }
            Action::Finish => return after_reset,
            Action::Abort { description } => panic!("{}", description),
        };
        let (next, then) = run.step(event);
        run = next;
        action = then;
    }
}

fn stale() -> Directory {
    let mut files = BTreeMap::new();
    files.insert(
        "Stale".to_string(),
        RecordDefinition::new(
            "Stale".to_string(),
            vec![Field::new("old".to_string(), SemanticType::Text)],
        ),
    );
    Some(files)
}

#[test]
fn reset_leaves_an_empty_directory_where_none_was() {
    let mut directory: Directory = None;
    let after_reset = carry_out(known_records(), &mut directory);
    assert_eq!(after_reset, Some(BTreeMap::new()));
}

#[test]
fn reset_leaves_an_empty_directory_where_one_was() {
    let mut directory = stale();
    let after_reset = carry_out(known_records(), &mut directory);
    assert_eq!(after_reset, Some(BTreeMap::new()));
}

#[test]
fn run_leaves_one_artifact_per_record() {
    let mut directory = stale();
    carry_out(known_records(), &mut directory);
    let files = directory.unwrap();
    assert_eq!(files.len(), 1);
    assert_eq!(files.get("User"), Some(&User::definition()));
    assert!(!files.contains_key("Stale"));
}

#[test]
fn run_without_records_leaves_the_directory_empty() {
    let mut directory = stale();
    carry_out(Vec::new(), &mut directory);
    assert_eq!(directory, Some(BTreeMap::new()));
}

#[test]
fn running_twice_leaves_the_same_directory_as_running_once() {
    let mut directory: Directory = None;
    carry_out(known_records(), &mut directory);
    let once = directory.clone();
    carry_out(known_records(), &mut directory);
    assert_eq!(directory, once);

    let mut other = stale();
    carry_out(known_records(), &mut other);
    assert_eq!(other, once);
}
