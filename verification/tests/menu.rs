use file_manager::entry::{Entry, EntryKind};
use file_manager::manager::FileManager;
use file_manager::model::{ContextAction, InputMode, Mode};
use file_manager::request::{FsOp, IoError, Request, Response};

fn file(path: &str) -> Entry {
    Entry::new(path.to_string(), EntryKind::File)
}

fn dir(path: &str) -> Entry {
    Entry::new(path.to_string(), EntryKind::Directory)
}

fn paths(fm: &FileManager) -> Vec<String> {
    fm.get_files().iter().map(|e| e.path.clone()).collect()
}

fn three() -> FileManager {
    FileManager::new("/r".to_string(), vec![file("/r/a.txt"), file("/r/b.txt"), dir("/r/c")])
}

fn enter_name(fm: &mut FileManager, name: &str) {
    for c in name.chars() {
        fm.add_to_input_buffer(c);
    }
}

fn pick_line(fm: &mut FileManager, line: usize) -> Request {
    fm.menu_mode();
    while *fm.get_menu_selected() != line {
        fm.menu_down();
    }
    fm.select_from_menu()
}

#[test]
fn show_menu_has_the_five_lines() {
    let fm = three();
    assert_eq!(
        fm.show_menu(),
        vec!["Удалить", "Создать файл", "Создать папку", "Переименовать", "Отмена"]
    );
}

#[test]
fn show_context_has_one_line_per_editor_and_cancel() {
    let fm = three();
    assert_eq!(
        fm.show_context(),
        vec![
            "Открыть в Nano",
            "Открыть в Vim",
            "Открыть в WebStorm",
            "Открыть в RustRover",
            "Открыть в VS Code",
            "Отмена",
        ]
    );
}

#[test]
fn menu_selection_wraps_over_five_lines() {
    let mut fm = three();
    fm.menu_up();
    assert_eq!(*fm.get_menu_selected(), 4);
    fm.menu_down();
    assert_eq!(*fm.get_menu_selected(), 0);
    fm.menu_down();
    assert_eq!(*fm.get_menu_selected(), 1);
    fm.menu_up();
    assert_eq!(*fm.get_menu_selected(), 0);
    for _ in 0..5 {
        fm.menu_down();
    }
    assert_eq!(*fm.get_menu_selected(), 0);
}

#[test]
fn context_selection_wraps_over_six_lines() {
    let mut fm = three();
    fm.context_up();
    assert_eq!(*fm.get_context_selected(), 5);
    fm.context_down();
    assert_eq!(*fm.get_context_selected(), 0);
    fm.context_down();
    assert_eq!(*fm.get_context_selected(), 1);
    for _ in 0..6 {
        fm.context_down();
    }
    assert_eq!(*fm.get_context_selected(), 1);
}

#[test]
fn mode_setters_set_the_mode() {
    let mut fm = three();
    assert_eq!(*fm.get_mode(), Mode::Normal);
    fm.menu_mode();
    assert_eq!(*fm.get_mode(), Mode::Menu);
    fm.search_mode();
    assert_eq!(*fm.get_mode(), Mode::Search);
    fm.context_mode();
    assert_eq!(*fm.get_mode(), Mode::Context);
    fm.default_mode();
    assert_eq!(*fm.get_mode(), Mode::Normal);
    assert_eq!(*fm.get_input_mode(), InputMode::Normal);
    fm.input_mode();
    assert_eq!(*fm.get_input_mode(), InputMode::Input);
    fm.default_input_mode();
    assert_eq!(*fm.get_input_mode(), InputMode::Normal);
}

#[test]
fn input_buffer_takes_and_gives_back_characters() {
    let mut fm = three();
    fm.add_to_input_buffer('a');
    fm.add_to_input_buffer('é');
    assert_eq!(fm.get_input_buffer(), "aé");
    fm.delete_from_input_buffer();
    assert_eq!(fm.get_input_buffer(), "a");
    fm.delete_from_input_buffer();
    fm.delete_from_input_buffer();
    assert_eq!(fm.get_input_buffer(), "");
}

#[test]
fn search_buffer_takes_and_gives_back_characters() {
    let mut fm = three();
    fm.add_to_search_buffer('x');
    fm.add_to_search_buffer('y');
    assert_eq!(fm.get_search_buffer(), "xy");
    fm.delete_from_search_buffer();
    assert_eq!(fm.get_search_buffer(), "x");
    fm.delete_from_search_buffer();
    fm.delete_from_search_buffer();
    assert_eq!(fm.get_search_buffer(), "");
    assert_eq!(fm.get_input_buffer(), "");
}

#[test]
fn first_line_deletes_the_selected_file_at_once() {
    let mut fm = three();
    fm.down();
    assert_eq!(
        pick_line(&mut fm, 0),
        Request::Mutate(FsOp::RemoveFile("/r/b.txt".to_string()), "/r".to_string())
    );
    assert_eq!(*fm.get_mode(), Mode::Menu);
    assert_eq!(*fm.get_input_mode(), InputMode::Normal);
}

#[test]
fn first_line_deletes_a_directory_with_what_is_in_it() {
    let mut fm = three();
    fm.up();
    assert_eq!(
        pick_line(&mut fm, 0),
        Request::Mutate(FsOp::RemoveDirAll("/r/c".to_string()), "/r".to_string())
    );
}

#[test]
fn first_line_in_an_empty_directory_only_lists_again() {
    let mut fm = FileManager::new("/empty".to_string(), Vec::new());
    assert_eq!(pick_line(&mut fm, 0), Request::Refresh("/empty".to_string()));
    assert_eq!(fm.resume(Response::Listed(Ok(vec![file("/empty/new")]))), Ok(()));
    assert_eq!(paths(&fm), vec!["/empty/new"]);
    assert_eq!(*fm.get_selected(), 0);
}

#[test]
fn a_refresh_that_fails_keeps_the_listing() {
    let mut fm = FileManager::new("/empty".to_string(), Vec::new());
    pick_line(&mut fm, 0);
    assert_eq!(fm.resume(Response::Listed(Err(IoError::NotFound))), Err(IoError::NotFound));
    assert!(paths(&fm).is_empty());
    assert_eq!(*fm.get_pending(), Request::Idle);
}

#[test]
fn lines_two_to_four_wait_for_a_name() {
    for line in 1..4 {
        let mut fm = three();
        assert_eq!(pick_line(&mut fm, line), Request::Idle);
        assert_eq!(*fm.get_mode(), Mode::Menu);
        assert_eq!(*fm.get_input_mode(), InputMode::Input);
    }
}

#[test]
fn last_line_leaves_the_menu() {
    let mut fm = three();
    assert_eq!(pick_line(&mut fm, 4), Request::Idle);
    assert_eq!(*fm.get_mode(), Mode::Normal);
    assert_eq!(*fm.get_input_mode(), InputMode::Normal);
}

#[test]
fn create_file_asks_for_the_file_in_the_current_directory() {
    let mut fm = three();
    pick_line(&mut fm, 1);
    enter_name(&mut fm, "  x.txt ");
    assert_eq!(
        fm.handle_menu_action(),
        Request::Mutate(FsOp::CreateFile("/r/x.txt".to_string()), "/r".to_string())
    );
    assert_eq!(fm.get_input_buffer(), "");
    assert_eq!(*fm.get_input_mode(), InputMode::Normal);
    assert_eq!(*fm.get_mode(), Mode::Menu);
}

#[test]
fn create_dir_asks_for_the_directory_in_the_current_directory() {
    let mut fm = three();
    pick_line(&mut fm, 2);
    enter_name(&mut fm, "d");
    assert_eq!(
        fm.handle_menu_action(),
        Request::Mutate(FsOp::CreateDir("/r/d".to_string()), "/r".to_string())
    );
    assert_eq!(fm.get_input_buffer(), "");
}

#[test]
fn rename_asks_for_a_sibling_of_the_selected_entry() {
    let mut fm = three();
    fm.down();
    pick_line(&mut fm, 3);
    enter_name(&mut fm, "new.txt");
    assert_eq!(
        fm.handle_menu_action(),
        Request::Mutate(
            FsOp::Rename("/r/b.txt".to_string(), "/r/new.txt".to_string()),
            "/r".to_string()
        )
    );
    assert_eq!(fm.get_input_buffer(), "");
}

#[test]
fn rename_with_nothing_selected_only_lists_again() {
    let mut fm = FileManager::new("/empty".to_string(), Vec::new());
    pick_line(&mut fm, 3);
    enter_name(&mut fm, "name");
    assert_eq!(fm.handle_menu_action(), Request::Refresh("/empty".to_string()));
    assert_eq!(fm.get_input_buffer(), "");
}

#[test]
fn an_empty_name_changes_nothing_on_disk() {
    for line in 1..4 {
        let mut fm = three();
        pick_line(&mut fm, line);
        enter_name(&mut fm, "   ");
        assert_eq!(fm.handle_menu_action(), Request::Idle);
        assert_eq!(fm.get_input_buffer(), "");
        assert_eq!(*fm.get_input_mode(), InputMode::Normal);
    }
}

#[test]
fn the_waiting_change_is_taken_once() {
    let mut fm = three();
    pick_line(&mut fm, 1);
    enter_name(&mut fm, "x");
    assert_eq!(
        fm.handle_menu_action(),
        Request::Mutate(FsOp::CreateFile("/r/x".to_string()), "/r".to_string())
    );
    fm.resume(Response::Mutated(Ok(()), Ok(vec![file("/r/x")])));
    enter_name(&mut fm, "y");
    assert_eq!(fm.handle_menu_action(), Request::Idle);
    assert_eq!(fm.get_input_buffer(), "");
}

#[test]
fn leaving_the_input_gives_up_the_waiting_change() {
    let mut fm = three();
    pick_line(&mut fm, 2);
    enter_name(&mut fm, "half");
    fm.abandon_input();
    assert_eq!(fm.get_input_buffer(), "");
    assert_eq!(*fm.get_input_mode(), InputMode::Normal);
    enter_name(&mut fm, "d");
    assert_eq!(fm.handle_menu_action(), Request::Idle);
}

#[test]
fn a_change_that_went_well_shows_the_new_listing() {
    let mut fm = three();
    pick_line(&mut fm, 1);
    enter_name(&mut fm, "0.txt");
    fm.handle_menu_action();
    let listing = vec![file("/r/b.txt"), file("/r/0.txt"), dir("/r/c"), file("/r/a.txt")];
    assert_eq!(fm.resume(Response::Mutated(Ok(()), Ok(listing))), Ok(()));
    assert_eq!(paths(&fm), vec!["/r/0.txt", "/r/a.txt", "/r/b.txt", "/r/c"]);
    assert_eq!(*fm.get_selected(), 0);
    assert_eq!(*fm.get_pending(), Request::Idle);
}

#[test]
fn a_change_that_failed_is_reported_and_the_listing_is_still_refreshed() {
    let mut fm = three();
    pick_line(&mut fm, 1);
    enter_name(&mut fm, "a.txt");
    fm.handle_menu_action();
    let listing = vec![file("/r/a.txt"), dir("/r/c")];
    assert_eq!(
        fm.resume(Response::Mutated(Err(IoError::AlreadyExists), Ok(listing))),
        Err(IoError::AlreadyExists)
    );
    assert_eq!(paths(&fm), vec!["/r/a.txt", "/r/c"]);
}

#[test]
fn a_listing_that_failed_after_a_change_is_reported() {
    let mut fm = three();
    pick_line(&mut fm, 2);
    enter_name(&mut fm, "d");
    fm.handle_menu_action();
    assert_eq!(
        fm.resume(Response::Mutated(Ok(()), Err(IoError::PermissionDenied))),
        Err(IoError::PermissionDenied)
    );
    assert_eq!(paths(&fm), vec!["/r/a.txt", "/r/b.txt", "/r/c"]);
}

#[test]
fn the_failure_of_the_change_is_reported_before_that_of_the_listing() {
    let mut fm = three();
    pick_line(&mut fm, 0);
    assert_eq!(
        fm.resume(Response::Mutated(Err(IoError::NotFound), Err(IoError::Other))),
        Err(IoError::NotFound)
    );
    assert_eq!(paths(&fm), vec!["/r/a.txt", "/r/b.txt", "/r/c"]);
    assert_eq!(*fm.get_pending(), Request::Idle);
}

#[test]
fn deleting_the_only_entry_leaves_an_empty_listing() {
    let mut fm = FileManager::new("/r".to_string(), vec![file("/r/only")]);
    assert_eq!(
        pick_line(&mut fm, 0),
        Request::Mutate(FsOp::RemoveFile("/r/only".to_string()), "/r".to_string())
    );
    assert_eq!(fm.resume(Response::Mutated(Ok(()), Ok(Vec::new()))), Ok(()));
    assert!(fm.get_files().is_empty());
    assert_eq!(*fm.get_selected(), 0);
}

#[test]
fn deleting_the_last_entry_moves_the_selection_up() {
    let mut fm = three();
    fm.up();
    assert_eq!(*fm.get_selected(), 2);
    pick_line(&mut fm, 0);
    fm.resume(Response::Mutated(Ok(()), Ok(vec![file("/r/a.txt"), file("/r/b.txt")])));
    assert_eq!(*fm.get_selected(), 1);
}

#[test]
fn a_refresh_keeps_a_selection_that_is_still_inside() {
    let mut fm = three();
    fm.down();
    pick_line(&mut fm, 0);
    fm.resume(Response::Mutated(Ok(()), Ok(vec![file("/r/a.txt"), dir("/r/c")])));
    assert_eq!(*fm.get_selected(), 1);
}

#[test]
fn context_lines_launch_their_editors() {
    let editors = ["nano", "vim", "webstorm", "rustrover", "code"];
    for (line, editor) in editors.iter().enumerate() {
        let mut fm = three();
        fm.context_mode();
        for _ in 0..line {
            fm.context_down();
        }
        assert_eq!(fm.context_action(), Some(ContextAction::Open));
        assert_eq!(
            fm.select_from_context(),
            Request::Launch(editor.to_string(), "/r/a.txt".to_string())
        );
        assert_eq!(*fm.get_mode(), Mode::Normal);
    }
}

#[test]
fn last_context_line_cancels() {
    let mut fm = three();
    fm.context_mode();
    fm.context_up();
    assert_eq!(*fm.get_context_selected(), 5);
    assert_eq!(fm.context_action(), None);
    assert_eq!(fm.select_from_context(), Request::Idle);
    assert_eq!(*fm.get_mode(), Mode::Normal);
}

#[test]
fn context_with_nothing_selected_launches_nothing() {
    let mut fm = FileManager::new("/empty".to_string(), Vec::new());
    fm.context_mode();
    assert_eq!(fm.select_from_context(), Request::Idle);
    assert_eq!(*fm.get_mode(), Mode::Normal);
}

#[test]
fn the_editor_s_failure_is_reported() {
    let mut fm = three();
    fm.context_mode();
    fm.select_from_context();
    assert_eq!(fm.resume(Response::Launched(Err(IoError::NotFound))), Err(IoError::NotFound));
    assert_eq!(*fm.get_pending(), Request::Idle);
    assert_eq!(paths(&fm), vec!["/r/a.txt", "/r/b.txt", "/r/c"]);
}

#[test]
fn the_editor_s_end_changes_nothing() {
    let mut fm = three();
    fm.context_mode();
    fm.select_from_context();
    assert_eq!(fm.resume(Response::Launched(Ok(()))), Ok(()));
    assert_eq!(*fm.get_mode(), Mode::Normal);
    assert_eq!(*fm.get_selected(), 0);
}
