use file_manager::entry::{sort_entries, Entry, EntryKind};
use file_manager::manager::FileManager;

fn file(path: &str) -> Entry {
    Entry::new(path.to_string(), EntryKind::File)
}

fn dir(path: &str) -> Entry {
    Entry::new(path.to_string(), EntryKind::Directory)
}

fn paths(entries: &Vec<Entry>) -> Vec<String> {
    entries.iter().map(|e| e.path.clone()).collect()
}

#[test]
fn sort_entries_orders_by_full_path() {
    let sorted = sort_entries(vec![file("/r/c.txt"), file("/r/a.txt"), file("/r/b.txt")]);
    assert_eq!(paths(&sorted), vec!["/r/a.txt", "/r/b.txt", "/r/c.txt"]);
}

#[test]
fn sort_entries_interleaves_files_and_directories() {
    let sorted = sort_entries(vec![dir("/r/z"), file("/r/m.txt"), dir("/r/a"), file("/r/b")]);
    assert_eq!(paths(&sorted), vec!["/r/a", "/r/b", "/r/m.txt", "/r/z"]);
    assert_eq!(sorted[0].kind, EntryKind::Directory);
    assert_eq!(sorted[1].kind, EntryKind::File);
    assert_eq!(sorted[3].kind, EntryKind::Directory);
}

#[test]
fn sort_entries_keeps_every_entry() {
    let sorted = sort_entries(vec![file("/r/b"), file("/r/a"), file("/r/b"), dir("/r/a")]);
    assert_eq!(sorted.len(), 4);
    assert_eq!(paths(&sorted), vec!["/r/a", "/r/a", "/r/b", "/r/b"]);
}

#[test]
fn sort_entries_keeps_equal_paths_in_their_order() {
    let sorted = sort_entries(vec![file("/r/a"), dir("/r/a")]);
    assert_eq!(sorted[0].kind, EntryKind::File);
    assert_eq!(sorted[1].kind, EntryKind::Directory);
}

#[test]
fn sort_entries_of_nothing_is_nothing() {
    assert!(sort_entries(Vec::new()).is_empty());
}

#[test]
fn sort_entries_leaves_sorted_input_alone() {
    let sorted = sort_entries(vec![file("/r/a"), file("/r/b"), file("/r/c")]);
    assert_eq!(paths(&sorted), vec!["/r/a", "/r/b", "/r/c"]);
}

#[test]
fn get_file_list_sorts_the_children() {
    let files = FileManager::get_file_list(vec![file("/r/b.txt"), dir("/r/c"), file("/r/a.txt")]);
    assert_eq!(paths(&files), vec!["/r/a.txt", "/r/b.txt", "/r/c"]);
}

#[test]
fn clone_copies_path_and_kind() {
    let entry = dir("/r/b");
    let copy = entry.clone();
    assert_eq!(copy.path, "/r/b");
    assert_eq!(copy.kind, EntryKind::Directory);
}

#[test]
fn name_is_the_last_component_of_the_path() {
    assert_eq!(file("/r/a.txt").name(), "a.txt");
    assert_eq!(dir("/r/sub/").name(), "sub");
    assert_eq!(file("plain").name(), "plain");
}

#[test]
fn name_of_a_path_without_components_is_the_path() {
    assert_eq!(dir("/").name(), "/");
    assert_eq!(dir("/r/..").name(), "/r/..");
}

#[test]
fn entry_kinds_are_told_apart() {
    assert!(file("/r/a").is_file());
    assert!(!file("/r/a").is_dir());
    assert!(dir("/r/a").is_dir());
    assert!(!dir("/r/a").is_file());
    let other = Entry::new("/r/s".to_string(), EntryKind::Other);
    assert!(!other.is_dir());
    assert!(!other.is_file());
}

#[test]
fn new_browser_starts_at_the_top_of_the_sorted_listing() {
    let fm = FileManager::new("/r".to_string(), vec![file("/r/b.txt"), file("/r/a.txt")]);
    assert_eq!(fm.get_current_dir(), "/r");
    assert_eq!(paths(fm.get_files()), vec!["/r/a.txt", "/r/b.txt"]);
    assert_eq!(*fm.get_selected(), 0);
    assert_eq!(*fm.get_content(), None);
    assert_eq!(*fm.get_file_scroll(), 0);
    assert_eq!(*fm.get_preview_lines(), 0);
    assert_eq!(fm.get_input_buffer(), "");
    assert_eq!(fm.get_search_buffer(), "");
    assert_eq!(*fm.get_menu_selected(), 0);
    assert_eq!(*fm.get_context_selected(), 0);
}
