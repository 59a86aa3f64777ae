use std::path::Path;

use workshop_cleaner::content_id::ContentId;
use workshop_cleaner::removal::{
    CleanerError, Removal, RemovalAction, RemovalEvent, RemovalPhase,
};

/// A subscription source that answers every revoke the same way and counts
/// how often it was asked.
struct StubSource {
    accepts: bool,
    calls: usize,
}

/// Runs a removal to its end against the real file system and a stub source.
fn run(
    root: &str,
    id: u64,
    unsubscribe: bool,
    source: &mut StubSource,
) -> (Result<(), CleanerError>, usize) {
    let (mut removal, mut action) = Removal::start(root, ContentId(id), unsubscribe);
    let mut deletes = 0;
    loop {
        let event = match action {
            RemovalAction::CheckDirectory(path) => {
                RemovalEvent::DirectoryChecked(Path::new(&path).is_dir())
            }
            RemovalAction::Unsubscribe(_) => {
                source.calls += 1;
                RemovalEvent::UnsubscribeCompleted(source.accepts)
            }
            RemovalAction::DeleteDirectory(path) => {
                deletes += 1;
                RemovalEvent::DeleteCompleted(
                    fs_extra::dir::remove(&path).map_err(|e| e.to_string()),
                )
            }
            RemovalAction::Finish(outcome) => return (outcome, deletes),
        };
        assert!(removal.expects(&event));
        action = removal.step(event);
    }
}

fn fresh_root(name: &str) -> String {
    let root = format!("/tmp/workshop_cleaner_removal/{}", name);
    fs_extra::dir::create_all(&root, true).unwrap();
    root
}

fn make_item(root: &str, id: &str) -> String {
    let dir = format!("{}/{}", root, id);
    fs_extra::dir::create_all(&dir, true).unwrap();
    fs_extra::file::write_all(format!("{}/data.bin", dir), "hello").unwrap();
    dir
}

#[test]
fn confirmed_unsubscribe_then_delete_removes_the_directory() {
    let root = fresh_root("confirmed");
    let dir = make_item(&root, "100");
    let mut source = StubSource { accepts: true, calls: 0 };
    let (outcome, deletes) = run(&root, 100, true, &mut source);
    assert!(matches!(outcome, Ok(())));
    assert!(!Path::new(&dir).exists());
    assert_eq!(source.calls, 1);
    assert_eq!(deletes, 1);
    fs_extra::dir::remove(&root).unwrap();
}

#[test]
fn failed_unsubscribe_keeps_the_directory() {
    let root = fresh_root("rejected");
    let dir = make_item(&root, "100");
    let mut source = StubSource { accepts: false, calls: 0 };
    let (outcome, deletes) = run(&root, 100, true, &mut source);
    assert!(matches!(outcome, Err(CleanerError::UnsubscribeFailed)));
    assert!(Path::new(&dir).is_dir());
    assert_eq!(source.calls, 1);
    assert_eq!(deletes, 0);
    fs_extra::dir::remove(&root).unwrap();
}

#[test]
fn removal_without_unsubscribe_never_calls_the_source() {
    let root = fresh_root("local_only");
    let dir = make_item(&root, "100");
    let mut source = StubSource { accepts: false, calls: 0 };
    let (outcome, deletes) = run(&root, 100, false, &mut source);
    assert!(matches!(outcome, Ok(())));
    assert!(!Path::new(&dir).exists());
    assert_eq!(source.calls, 0);
    assert_eq!(deletes, 1);
    fs_extra::dir::remove(&root).unwrap();
}

#[test]
fn removal_of_missing_item_is_not_found() {
    let root = fresh_root("missing");
    let other = make_item(&root, "100");
    let mut source = StubSource { accepts: true, calls: 0 };
    let (outcome, deletes) = run(&root, 999, false, &mut source);
    assert!(matches!(outcome, Err(CleanerError::NotFound)));
    assert_eq!(source.calls, 0);
    assert_eq!(deletes, 0);
    assert!(Path::new(&other).is_dir());
    assert!(!Path::new(&format!("{}/999", root)).exists());
    fs_extra::dir::remove(&root).unwrap();
}

#[test]
fn missing_item_with_unsubscribe_requested_is_not_found_without_revoke() {
    let root = fresh_root("missing_unsubscribe");
    let mut source = StubSource { accepts: true, calls: 0 };
    let (outcome, deletes) = run(&root, 999, true, &mut source);
    assert!(matches!(outcome, Err(CleanerError::NotFound)));
    assert_eq!(source.calls, 0);
    assert_eq!(deletes, 0);
    fs_extra::dir::remove(&root).unwrap();
}

#[test]
fn a_file_in_place_of_the_directory_is_not_found() {
    let root = fresh_root("file_not_dir");
    fs_extra::file::write_all(format!("{}/100", root), "x").unwrap();
    let mut source = StubSource { accepts: true, calls: 0 };
    let (outcome, deletes) = run(&root, 100, true, &mut source);
    assert!(matches!(outcome, Err(CleanerError::NotFound)));
    assert_eq!(source.calls, 0);
    assert_eq!(deletes, 0);
    assert!(Path::new(&format!("{}/100", root)).is_file());
    fs_extra::dir::remove(&root).unwrap();
}

#[test]
fn start_asks_to_check_the_item_directory() {
    let (removal, action) = Removal::start("/games/content", ContentId(100), true);
    assert!(matches!(action, RemovalAction::CheckDirectory(ref p) if p == "/games/content/100"));
    assert_eq!(removal.item_dir, "/games/content/100");
    assert_eq!(removal.phase, RemovalPhase::CheckingDirectory);
    let (removal, _) = Removal::start("/games/content/", ContentId(7), false);
    assert_eq!(removal.item_dir, "/games/content/7");
    let (removal, _) = Removal::start("", ContentId(7), false);
    assert_eq!(removal.item_dir, "7");
}

#[test]
fn delete_failure_reports_its_cause() {
    let (mut removal, _) = Removal::start("/r", ContentId(5), false);
    let action = removal.step(RemovalEvent::DirectoryChecked(true));
    assert!(matches!(action, RemovalAction::DeleteDirectory(ref p) if p == "/r/5"));
    let action = removal.step(RemovalEvent::DeleteCompleted(Err("permission denied".to_string())));
    assert!(matches!(
        action,
        RemovalAction::Finish(Err(CleanerError::DeleteFailed(ref cause))) if cause == "permission denied"
    ));
    assert!(removal.is_finished());
}

#[test]
fn unsubscribe_comes_before_delete() {
    let (mut removal, _) = Removal::start("/r", ContentId(5), true);
    let action = removal.step(RemovalEvent::DirectoryChecked(true));
    assert!(matches!(action, RemovalAction::Unsubscribe(ContentId(5))));
    assert_eq!(removal.phase, RemovalPhase::Unsubscribing);
    assert!(!removal.expects(&RemovalEvent::DeleteCompleted(Ok(()))));
    assert!(removal.expects(&RemovalEvent::UnsubscribeCompleted(true)));
    let action = removal.step(RemovalEvent::UnsubscribeCompleted(true));
    assert!(matches!(action, RemovalAction::DeleteDirectory(_)));
    let action = removal.step(RemovalEvent::DeleteCompleted(Ok(())));
    assert!(matches!(action, RemovalAction::Finish(Ok(()))));
}

#[test]
fn a_finished_removal_expects_nothing() {
    let (mut removal, _) = Removal::start("/r", ContentId(5), true);
    removal.step(RemovalEvent::DirectoryChecked(false));
    assert!(removal.is_finished());
    assert!(!removal.expects(&RemovalEvent::DirectoryChecked(true)));
    assert!(!removal.expects(&RemovalEvent::UnsubscribeCompleted(true)));
    assert!(!removal.expects(&RemovalEvent::DeleteCompleted(Ok(()))));
}
