use file_manager::entry::{Entry, EntryKind};
use file_manager::input_handler::{handle_event, Event, KeyCode, KeyEvent};
use file_manager::manager::FileManager;
use file_manager::request::{FsOp, IoError, Request, Response};
use std::path::Path;

/// A file system held in memory: every path with its kind.
struct Disk {
    nodes: Vec<(String, EntryKind)>,
}

impl Disk {
    fn new(root: &str) -> Disk {
        Disk { nodes: vec![(root.to_string(), EntryKind::Directory)] }
    }

    fn kind(&self, path: &str) -> Option<EntryKind> {
        self.nodes.iter().find(|(p, _)| p == path).map(|(_, k)| *k)
    }

    fn put(&mut self, path: &str, kind: EntryKind) -> Result<(), IoError> {
        if self.kind(path).is_some() {
            return Err(IoError::AlreadyExists);
        }
        let parent = Path::new(path).parent().map(|p| p.to_string_lossy().into_owned());
        match parent {
            Some(p) if self.kind(&p) == Some(EntryKind::Directory) => {
                self.nodes.push((path.to_string(), kind));
                Ok(())
            }
            _ => Err(IoError::NotFound),
        }
    }

    fn remove(&mut self, path: &str, whole_tree: bool) -> Result<(), IoError> {
        match self.kind(path) {
            None => Err(IoError::NotFound),
            Some(EntryKind::Directory) if !whole_tree => Err(IoError::Other),
            Some(_) => {
                let below = format!("{}/", path);
                self.nodes.retain(|(p, _)| p != path && !p.starts_with(&below));
                Ok(())
            }
        }
    }

    fn rename(&mut self, from: &str, to: &str) -> Result<(), IoError> {
        if self.kind(from).is_none() {
            return Err(IoError::NotFound);
        }
        if self.kind(to).is_some() {
            return Err(IoError::AlreadyExists);
        }
        let below = format!("{}/", from);
        for node in self.nodes.iter_mut() {
            if node.0 == from {
                node.0 = to.to_string();
            } else if node.0.starts_with(&below) {
                node.0 = format!("{}/{}", to, &node.0[below.len()..]);
            }
        }
        Ok(())
    }

    fn list(&self, dir: &str) -> Result<Vec<Entry>, IoError> {
        match self.kind(dir) {
            Some(EntryKind::Directory) => {}
            Some(_) => return Err(IoError::Other),
            None => return Err(IoError::NotFound),
        }
        let mut found = Vec::new();
        for (path, kind) in self.nodes.iter().rev() {
            if Path::new(path).parent() == Some(Path::new(dir)) {
                found.push(Entry::new(path.clone(), *kind));
            }
        }
        Ok(found)
    }

    fn apply(&mut self, op: &FsOp) -> Result<(), IoError> {
        match op {
            FsOp::CreateFile(p) => self.put(p, EntryKind::File),
            FsOp::CreateDir(p) => self.put(p, EntryKind::Directory),
            FsOp::Rename(from, to) => self.rename(from, to),
            FsOp::RemoveFile(p) => self.remove(p, false),
            FsOp::RemoveDirAll(p) => self.remove(p, true),
        }
    }

    /// Carries out a request as the program around the browser would.
    fn serve(&mut self, fm: &mut FileManager, request: Request) -> Result<(), IoError> {
        match request {
            Request::Idle | Request::Quit => Ok(()),
            Request::Preview(path) => {
                let text = match self.kind(&path) {
                    Some(EntryKind::File) => Ok(format!("content of {}\n", path)),
                    _ => Err(IoError::NotFound),
                };
                fm.resume(Response::Read(text))
            }
            Request::Navigate(dir) | Request::Refresh(dir) => {
                let listing = self.list(&dir);
                fm.resume(Response::Listed(listing))
            }
            Request::Mutate(op, dir) => {
                let done = self.apply(&op);
                let listing = self.list(&dir);
                fm.resume(Response::Mutated(done, listing))
            }
            Request::Launch(_, _) => fm.resume(Response::Launched(Ok(()))),
        }
    }
}

fn key(code: KeyCode) -> Event {
    Event::Key(KeyEvent { code, control: false })
}

fn press(disk: &mut Disk, fm: &mut FileManager, code: KeyCode) -> Result<(), IoError> {
    let request = handle_event(key(code), fm);
    disk.serve(fm, request)
}

fn enter_text(disk: &mut Disk, fm: &mut FileManager, text: &str) {
    for c in text.chars() {
        press(disk, fm, KeyCode::Char(c)).unwrap();
    }
}

fn start(disk: &Disk, dir: &str) -> FileManager {
    FileManager::new(dir.to_string(), disk.list(dir).unwrap())
}

fn names(fm: &FileManager) -> Vec<String> {
    fm.get_files()
        .iter()
        .map(|e| Path::new(&e.path).file_name().unwrap().to_string_lossy().into_owned())
        .collect()
}

/// Opens the menu, goes to `line` and presses Enter.
fn pick(disk: &mut Disk, fm: &mut FileManager, line: usize) -> Result<(), IoError> {
    press(disk, fm, KeyCode::Char('m')).unwrap();
    while *fm.get_menu_selected() != line {
        press(disk, fm, KeyCode::Down).unwrap();
    }
    press(disk, fm, KeyCode::Enter)
}

#[test]
fn creating_a_file_in_an_empty_directory_lists_it() {
    let mut disk = Disk::new("/w");
    let mut fm = start(&disk, "/w");
    assert!(fm.get_files().is_empty());
    pick(&mut disk, &mut fm, 1).unwrap();
    enter_text(&mut disk, &mut fm, "x.txt");
    assert_eq!(press(&mut disk, &mut fm, KeyCode::Enter), Ok(()));
    assert_eq!(names(&fm), vec!["x.txt"]);
    assert_eq!(fm.get_files()[0].path, "/w/x.txt");
    assert_eq!(fm.get_files()[0].kind, EntryKind::File);
    assert_eq!(*fm.get_selected(), 0);
}

#[test]
fn creating_the_same_file_again_fails_and_lists_it_once() {
    let mut disk = Disk::new("/w");
    let mut fm = start(&disk, "/w");
    pick(&mut disk, &mut fm, 1).unwrap();
    enter_text(&mut disk, &mut fm, "x.txt");
    press(&mut disk, &mut fm, KeyCode::Enter).unwrap();
    press(&mut disk, &mut fm, KeyCode::Esc).unwrap();
    pick(&mut disk, &mut fm, 1).unwrap();
    enter_text(&mut disk, &mut fm, "x.txt");
    assert_eq!(press(&mut disk, &mut fm, KeyCode::Enter), Err(IoError::AlreadyExists));
    assert_eq!(names(&fm), vec!["x.txt"]);
    assert_eq!(fm.get_input_buffer(), "");
    assert_eq!(press(&mut disk, &mut fm, KeyCode::Esc), Ok(()));
    assert_eq!(press(&mut disk, &mut fm, KeyCode::Down), Ok(()));
    assert_eq!(*fm.get_selected(), 0);
}

#[test]
fn deleting_the_only_entry_empties_the_listing() {
    let mut disk = Disk::new("/w");
    disk.put("/w/only.txt", EntryKind::File).unwrap();
    let mut fm = start(&disk, "/w");
    assert_eq!(names(&fm), vec!["only.txt"]);
    assert_eq!(pick(&mut disk, &mut fm, 0), Ok(()));
    assert!(fm.get_files().is_empty());
    assert_eq!(*fm.get_selected(), 0);
    assert_eq!(disk.kind("/w/only.txt"), None);
}

#[test]
fn deleting_a_directory_removes_what_is_in_it() {
    let mut disk = Disk::new("/w");
    disk.put("/w/d", EntryKind::Directory).unwrap();
    disk.put("/w/d/inner", EntryKind::File).unwrap();
    disk.put("/w/z", EntryKind::File).unwrap();
    let mut fm = start(&disk, "/w");
    assert_eq!(pick(&mut disk, &mut fm, 0), Ok(()));
    assert_eq!(names(&fm), vec!["z"]);
    assert_eq!(disk.kind("/w/d/inner"), None);
}

#[test]
fn deleting_what_is_already_gone_is_reported_and_the_listing_is_fresh() {
    let mut disk = Disk::new("/w");
    disk.put("/w/a", EntryKind::File).unwrap();
    disk.put("/w/b", EntryKind::File).unwrap();
    let mut fm = start(&disk, "/w");
    press(&mut disk, &mut fm, KeyCode::Down).unwrap();
    disk.remove("/w/b", false).unwrap();
    assert_eq!(pick(&mut disk, &mut fm, 0), Err(IoError::NotFound));
    assert_eq!(names(&fm), vec!["a"]);
    assert_eq!(*fm.get_selected(), 0);
}

#[test]
fn renaming_moves_the_entry_beside_where_it_was() {
    let mut disk = Disk::new("/w");
    disk.put("/w/a", EntryKind::File).unwrap();
    disk.put("/w/b", EntryKind::File).unwrap();
    let mut fm = start(&disk, "/w");
    pick(&mut disk, &mut fm, 3).unwrap();
    enter_text(&mut disk, &mut fm, " z ");
    assert_eq!(press(&mut disk, &mut fm, KeyCode::Enter), Ok(()));
    assert_eq!(names(&fm), vec!["b", "z"]);
    assert_eq!(disk.kind("/w/a"), None);
    assert_eq!(disk.kind("/w/z"), Some(EntryKind::File));
}

#[test]
fn renaming_onto_an_existing_name_is_reported() {
    let mut disk = Disk::new("/w");
    disk.put("/w/a", EntryKind::File).unwrap();
    disk.put("/w/b", EntryKind::File).unwrap();
    let mut fm = start(&disk, "/w");
    pick(&mut disk, &mut fm, 3).unwrap();
    enter_text(&mut disk, &mut fm, "b");
    assert_eq!(press(&mut disk, &mut fm, KeyCode::Enter), Err(IoError::AlreadyExists));
    assert_eq!(names(&fm), vec!["a", "b"]);
}

#[test]
fn create_enter_and_leave_comes_back_to_the_directory() {
    let mut disk = Disk::new("/w");
    disk.put("/w/a.txt", EntryKind::File).unwrap();
    let mut fm = start(&disk, "/w");
    pick(&mut disk, &mut fm, 2).unwrap();
    enter_text(&mut disk, &mut fm, "d");
    assert_eq!(press(&mut disk, &mut fm, KeyCode::Enter), Ok(()));
    press(&mut disk, &mut fm, KeyCode::Esc).unwrap();
    assert_eq!(names(&fm), vec!["a.txt", "d"]);
    press(&mut disk, &mut fm, KeyCode::Down).unwrap();
    assert_eq!(fm.get_files()[*fm.get_selected()].path, "/w/d");
    assert_eq!(press(&mut disk, &mut fm, KeyCode::Enter), Ok(()));
    assert_eq!(fm.get_current_dir(), "/w/d");
    assert!(fm.get_files().is_empty());
    assert_eq!(press(&mut disk, &mut fm, KeyCode::Backspace), Ok(()));
    assert_eq!(fm.get_current_dir(), "/w");
    assert!(names(&fm).contains(&"d".to_string()));
    assert_eq!(names(&fm), vec!["a.txt", "d"]);
    assert_eq!(*fm.get_selected(), 0);
}

#[test]
fn two_steps_down_and_enter_descend_into_the_directory() {
    let mut disk = Disk::new("/w");
    disk.put("/w/c", EntryKind::Directory).unwrap();
    disk.put("/w/b.txt", EntryKind::File).unwrap();
    disk.put("/w/a.txt", EntryKind::File).unwrap();
    disk.put("/w/c/two", EntryKind::File).unwrap();
    disk.put("/w/c/one", EntryKind::Directory).unwrap();
    let mut fm = start(&disk, "/w");
    assert_eq!(names(&fm), vec!["a.txt", "b.txt", "c"]);
    assert_eq!(*fm.get_selected(), 0);
    press(&mut disk, &mut fm, KeyCode::Down).unwrap();
    assert_eq!(*fm.get_content(), Some("content of /w/b.txt\n".to_string()));
    press(&mut disk, &mut fm, KeyCode::Down).unwrap();
    assert_eq!(*fm.get_selected(), 2);
    assert_eq!(*fm.get_content(), None);
    assert_eq!(press(&mut disk, &mut fm, KeyCode::Enter), Ok(()));
    assert_eq!(fm.get_current_dir(), "/w/c");
    assert_eq!(names(&fm), vec!["one", "two"]);
    assert_eq!(*fm.get_selected(), 0);
}

#[test]
fn entering_and_leaving_a_directory_restores_the_listing() {
    let mut disk = Disk::new("/w");
    disk.put("/w/sub", EntryKind::Directory).unwrap();
    disk.put("/w/sub/x", EntryKind::File).unwrap();
    disk.put("/w/z", EntryKind::File).unwrap();
    disk.put("/w/m", EntryKind::File).unwrap();
    let mut fm = start(&disk, "/w");
    let before = names(&fm);
    press(&mut disk, &mut fm, KeyCode::Down).unwrap();
    assert_eq!(press(&mut disk, &mut fm, KeyCode::Right), Ok(()));
    assert_eq!(fm.get_current_dir(), "/w/sub");
    assert_eq!(press(&mut disk, &mut fm, KeyCode::Left), Ok(()));
    assert_eq!(fm.get_current_dir(), "/w");
    assert_eq!(names(&fm), before);
    assert_eq!(*fm.get_selected(), 0);
}

#[test]
fn entering_a_directory_that_vanished_is_reported_and_nothing_moves() {
    let mut disk = Disk::new("/w");
    disk.put("/w/d", EntryKind::Directory).unwrap();
    let mut fm = start(&disk, "/w");
    disk.remove("/w/d", true).unwrap();
    assert_eq!(press(&mut disk, &mut fm, KeyCode::Enter), Err(IoError::NotFound));
    assert_eq!(fm.get_current_dir(), "/w");
    assert_eq!(names(&fm), vec!["d"]);
}

#[test]
fn searching_moves_the_selection_to_the_match() {
    let mut disk = Disk::new("/w");
    disk.put("/w/alpha.rs", EntryKind::File).unwrap();
    disk.put("/w/beta.rs", EntryKind::File).unwrap();
    disk.put("/w/gamma", EntryKind::Directory).unwrap();
    let mut fm = start(&disk, "/w");
    press(&mut disk, &mut fm, KeyCode::Char('f')).unwrap();
    enter_text(&mut disk, &mut fm, "gam");
    press(&mut disk, &mut fm, KeyCode::Enter).unwrap();
    assert_eq!(*fm.get_selected(), 2);
    press(&mut disk, &mut fm, KeyCode::Char('f')).unwrap();
    enter_text(&mut disk, &mut fm, "nothing");
    press(&mut disk, &mut fm, KeyCode::Enter).unwrap();
    assert_eq!(*fm.get_selected(), 2);
    assert_eq!(press(&mut disk, &mut fm, KeyCode::Enter), Ok(()));
    assert_eq!(fm.get_current_dir(), "/w/gamma");
}

#[test]
fn the_quit_key_asks_to_end_the_session() {
    let disk = Disk::new("/w");
    let mut fm = start(&disk, "/w");
    assert_eq!(handle_event(key(KeyCode::Char('q')), &mut fm), Request::Quit);
}
