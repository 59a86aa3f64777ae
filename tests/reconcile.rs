use workshop_cleaner::content_id::ContentId;
use workshop_cleaner::reconcile::{
    contains_id, list_content_directories, orphaned, orphaned_items, ListedEntry,
};

fn dir(name: &str) -> ListedEntry {
    ListedEntry { name: name.to_string(), is_dir: true }
}

fn file(name: &str) -> ListedEntry {
    ListedEntry { name: name.to_string(), is_dir: false }
}

fn sorted(mut v: Vec<ContentId>) -> Vec<u64> {
    v.sort_by_key(|id| id.0);
    v.into_iter().map(|id| id.0).collect()
}

#[test]
fn list_orphaned_skips_bad_names_and_subscribed_items() {
    let entries = vec![dir("100"), dir("200"), dir("abc")];
    let subscribed = vec![ContentId(200)];
    assert_eq!(sorted(orphaned_items(&entries, &subscribed)), vec![100]);
}

#[test]
fn scan_skips_files_and_unparsable_names() {
    let entries = vec![dir("100"), file("300"), dir("abc"), dir(""), file("notes.txt"), dir("42")];
    assert_eq!(sorted(list_content_directories(&entries)), vec![42, 100]);
}

#[test]
fn scan_reports_each_identifier_once() {
    let entries = vec![dir("7"), dir("007"), dir("7")];
    assert_eq!(list_content_directories(&entries), vec![ContentId(7)]);
}

#[test]
fn scan_of_empty_root_is_empty() {
    assert!(list_content_directories(&vec![]).is_empty());
}

#[test]
fn orphaned_keeps_installed_order() {
    let installed = vec![ContentId(5), ContentId(3), ContentId(9), ContentId(1)];
    let subscribed = vec![ContentId(9), ContentId(42)];
    assert_eq!(
        orphaned(&installed, &subscribed),
        vec![ContentId(5), ContentId(3), ContentId(1)]
    );
}

#[test]
fn orphaned_partitions_the_installed_set() {
    let installed = vec![ContentId(1), ContentId(2), ContentId(3), ContentId(4)];
    let subscribed = vec![ContentId(2), ContentId(4), ContentId(6)];
    let orphans = orphaned(&installed, &subscribed);
    for id in &orphans {
        assert!(!subscribed.contains(id));
    }
    let mut union: Vec<ContentId> = orphans.clone();
    for id in &installed {
        if subscribed.contains(id) {
            union.push(*id);
        }
    }
    assert_eq!(sorted(union), sorted(installed.clone()));
}

#[test]
fn nothing_subscribed_leaves_everything_orphaned() {
    let installed = vec![ContentId(10), ContentId(20)];
    assert_eq!(orphaned(&installed, &vec![]), installed);
}

#[test]
fn everything_subscribed_leaves_nothing_orphaned() {
    let installed = vec![ContentId(10), ContentId(20)];
    assert!(orphaned(&installed, &installed).is_empty());
}

#[test]
fn contains_id_finds_members_only() {
    let v = vec![ContentId(1), ContentId(3)];
    assert!(contains_id(&v, ContentId(3)));
    assert!(!contains_id(&v, ContentId(2)));
    assert!(!contains_id(&vec![], ContentId(2)));
}
