use file_manager::entry::{Entry, EntryKind};
use file_manager::manager::FileManager;
use file_manager::request::Response;
use file_manager::screen::{Panel, Row};

fn file(path: &str) -> Entry {
    Entry::new(path.to_string(), EntryKind::File)
}

fn dir(path: &str) -> Entry {
    Entry::new(path.to_string(), EntryKind::Directory)
}

fn three() -> FileManager {
    FileManager::new("/r".to_string(), vec![file("/r/a.txt"), file("/r/b.txt"), dir("/r/c")])
}

fn row(name: &str, is_dir: bool, selected: bool) -> Row {
    Row { name: name.to_string(), is_dir, selected }
}

#[test]
fn rows_show_names_kinds_and_the_selection() {
    let mut fm = three();
    assert_eq!(
        fm.rows(),
        vec![row("a.txt", false, true), row("b.txt", false, false), row("c", true, false)]
    );
    fm.up();
    assert_eq!(
        fm.rows(),
        vec![row("a.txt", false, false), row("b.txt", false, false), row("c", true, true)]
    );
}

#[test]
fn rows_of_an_empty_directory_are_none() {
    let fm = FileManager::new("/empty".to_string(), Vec::new());
    assert!(fm.rows().is_empty());
}

#[test]
fn normal_mode_shows_the_preview() {
    let mut fm = three();
    assert_eq!(fm.panel(), Panel::NoPreview);
    fm.enter_handler();
    fm.resume(Response::Read(Ok("1\n2\n3\n".to_string())));
    assert_eq!(fm.panel(), Panel::Preview("1\n2\n3\n".to_string(), 0));
    fm.page_down();
    assert_eq!(fm.panel(), Panel::Preview("1\n2\n3\n".to_string(), 2));
}

#[test]
fn menu_mode_shows_the_menu_or_the_name() {
    let mut fm = three();
    fm.menu_mode();
    fm.menu_down();
    assert_eq!(fm.panel(), Panel::Menu(fm.show_menu(), 1));
    fm.select_from_menu();
    fm.add_to_input_buffer('n');
    assert_eq!(fm.panel(), Panel::NameInput("n".to_string()));
}

#[test]
fn search_mode_shows_the_query() {
    let mut fm = three();
    fm.search_mode();
    fm.add_to_search_buffer('q');
    assert_eq!(fm.panel(), Panel::Query("q".to_string()));
}

#[test]
fn context_mode_shows_the_context_menu() {
    let mut fm = three();
    fm.context_mode();
    fm.context_up();
    assert_eq!(fm.panel(), Panel::Context(fm.show_context(), 5));
}
