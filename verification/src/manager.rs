//! The browser: the state behind the screen and the operations on it.
//!
//! The browser never touches the file system. An operation that needs it
//! returns a [`Request`]; the caller carries the request out and hands the
//! outcome to [`FileManager::resume`].

use crate::entry::{canonical, is_sorted_listing, sort_entries, views, Entry};
use crate::model::{
    editor_at, ContextAction, InputMode, MenuAction, Mode, State, CONTEXT_LEN, MENU_LEN, PAGE_STEP,
};
use crate::path::{joined, path_join, path_parent};
use crate::request::{FsOp, FsOpModel, IoError, Request, RequestModel, Response};
use crate::search::{
    entry_scores, find_first_hit, first_hit, lemma_first_hit_in_range, lemma_first_hit_is,
    score_entries,
};
use crate::text::{count_lines, line_count, pop_char, push_char, trim};
use vstd::prelude::*;

verus! {

/// The browser's state. Its mathematical value is a [`State`].
pub struct FileManager {
    current_dir: String,
    files: Vec<Entry>,
    selected: usize,
    content: Option<String>,
    file_scroll: usize,
    file_lines_count: usize,
    mode: Mode,
    input_mode: InputMode,
    input_buffer: String,
    menu_action: Option<MenuAction>,
    menu_selected: usize,
    context_selected: usize,
    search_buffer: String,
    pending: Request,
}

/// The value of an optional text.
pub open spec fn text_view(t: Option<String>) -> Option<Seq<char>> {
    match t {
        Some(s) => Some(s@),
        None => None,
    }
}

/// The values of a list of labels.
pub open spec fn labels(v: Seq<&'static str>) -> Seq<Seq<char>> {
    v.map_values(|s: &'static str| s@)
}

/// The lines of the menu, top to bottom.
pub open spec fn menu_labels() -> Seq<Seq<char>> {
    seq!["Удалить"@, "Создать файл"@, "Создать папку"@, "Переименовать"@, "Отмена"@]
}

/// The lines of the context menu, top to bottom.
pub open spec fn context_labels() -> Seq<Seq<char>> {
    seq![
        "Открыть в Nano"@,
        "Открыть в Vim"@,
        "Открыть в WebStorm"@,
        "Открыть в RustRover"@,
        "Открыть в VS Code"@,
        "Отмена"@,
    ]
}

/// What the line of the context menu at `index` does, if anything.
pub open spec fn context_action_at(index: nat) -> Option<ContextAction> {
    if editor_at(index).is_some() {
        Some(ContextAction::Open)
    } else {
        None
    }
}

impl View for FileManager {
    type V = State;

    closed spec fn view(&self) -> State {
        State {
            current_dir: self.current_dir@,
            files: views(self.files@),
            selected: self.selected as nat,
            content: text_view(self.content),
            file_scroll: self.file_scroll as nat,
            file_lines_count: self.file_lines_count as nat,
            mode: self.mode,
            input_mode: self.input_mode,
            input_buffer: self.input_buffer@,
            menu_action: self.menu_action,
            menu_selected: self.menu_selected as nat,
            context_selected: self.context_selected as nat,
            search_buffer: self.search_buffer@,
            pending: self.pending@,
        }
    }
}

impl FileManager {
    /// A browser that starts in `current_dir`, whose children, in any
    /// order, are `children`.
    pub fn new(current_dir: String, children: Vec<Entry>) -> (fm: Self)
        ensures
            fm@.inv(),
            fm@ == State::initial(current_dir@, views(children@)),
    {
        let files = Self::get_file_list(children);
        FileManager {
            current_dir,
            files,
            selected: 0,
            content: None,
            file_scroll: 0,
            file_lines_count: 0,
            mode: Mode::Normal,
            input_mode: InputMode::Normal,
            input_buffer: String::new(),
            menu_action: None,
            menu_selected: 0,
            context_selected: 0,
            search_buffer: String::new(),
            pending: Request::Idle,
        }
    }

    /// The mode the browser is in.
    pub fn get_mode(&self) -> (r: &Mode)
        ensures
            *r == self@.mode,
    {
        &self.mode
    }

    /// Whether the menu takes a name or shows its list.
    pub fn get_input_mode(&self) -> (r: &InputMode)
        ensures
            *r == self@.input_mode,
    {
        &self.input_mode
    }

    /// The index of the selected entry; 0 where there is none.
    pub fn get_selected(&self) -> (r: &usize)
        ensures
            *r == self@.selected,
    {
        &self.selected
    }

    /// The entries of the current directory, in canonical order.
    pub fn get_files(&self) -> (r: &Vec<Entry>)
        ensures
            views(r@) == self@.files,
    {
        &self.files
    }

    /// The text of the preview, if there is one.
    pub fn get_content(&self) -> (r: &Option<String>)
        ensures
            text_view(*r) == self@.content,
    {
        &self.content
    }

    /// The line of the preview that is shown first.
    pub fn get_file_scroll(&self) -> (r: &usize)
        ensures
            *r == self@.file_scroll,
    {
        &self.file_scroll
    }

    /// The name that is being typed.
    pub fn get_input_buffer(&self) -> (r: &String)
        ensures
            r@ == self@.input_buffer,
    {
        &self.input_buffer
    }

    /// The query that is being typed.
    pub fn get_search_buffer(&self) -> (r: &String)
        ensures
            r@ == self@.search_buffer,
    {
        &self.search_buffer
    }

    /// The index of the selected line of the menu.
    pub fn get_menu_selected(&self) -> (r: &usize)
        ensures
            *r == self@.menu_selected,
    {
        &self.menu_selected
    }

    /// The index of the selected line of the context menu.
    pub fn get_context_selected(&self) -> (r: &usize)
        ensures
            *r == self@.context_selected,
    {
        &self.context_selected
    }

    /// The directory the browser is in.
    pub fn get_current_dir(&self) -> (r: &String)
        ensures
            r@ == self@.current_dir,
    {
        &self.current_dir
    }

    /// The number of lines of the preview.
    pub fn get_preview_lines(&self) -> (r: &usize)
        ensures
            *r == self@.file_lines_count,
    {
        &self.file_lines_count
    }

    /// The number of lines of a text.
    pub fn get_file_lines_count(text: &str) -> (n: usize)
        ensures
            n == line_count(text@),
    {
        count_lines(text)
    }

    /// The request that waits for its answer.
    pub fn get_pending(&self) -> (r: &Request)
        ensures
            r@ == self@.pending,
    {
        &self.pending
    }

    /// The children of a directory in canonical order: ascending by full
    /// path, files and directories interleaved.
    pub fn get_file_list(children: Vec<Entry>) -> (files: Vec<Entry>)
        ensures
            views(files@) == canonical(views(children@)),
            is_sorted_listing(views(children@), views(files@)),
    {
        sort_entries(children)
    }

    /// Appends a character to the name that is being typed.
    pub fn add_to_input_buffer(&mut self, c: char)
        ensures
            final(self)@ == old(self)@.add_to_input_buffer(c),
            old(self)@.inv() ==> final(self)@.inv(),
    {
        push_char(&mut self.input_buffer, c);
    }

    /// Removes the last character of the name that is being typed, if
    /// there is one.
    pub fn delete_from_input_buffer(&mut self)
        ensures
            final(self)@ == old(self)@.delete_from_input_buffer(),
            old(self)@.inv() ==> final(self)@.inv(),
    {
        let _ = pop_char(&mut self.input_buffer);
    }

    /// Appends a character to the query that is being typed.
    pub fn add_to_search_buffer(&mut self, c: char)
        ensures
            final(self)@ == old(self)@.add_to_search_buffer(c),
            old(self)@.inv() ==> final(self)@.inv(),
    {
        push_char(&mut self.search_buffer, c);
    }

    /// Removes the last character of the query that is being typed, if
    /// there is one.
    pub fn delete_from_search_buffer(&mut self)
        ensures
            final(self)@ == old(self)@.delete_from_search_buffer(),
            old(self)@.inv() ==> final(self)@.inv(),
    {
        let _ = pop_char(&mut self.search_buffer);
    }

    /// Makes `request` the pending one and hands a copy of it out.
    pub(crate) fn ask(&mut self, request: Request) -> (r: Request)
        ensures
            final(self)@ == old(self)@.asking(request@),
            r@ == request@,
    {
        self.pending = request.clone();
        request
    }

    /// Drops the preview and puts the scroll offset at the top.
    fn clear_preview(&mut self)
        ensures
            final(self)@ == old(self)@.without_preview(),
    {
        self.content = None;
        self.file_lines_count = 0;
        self.file_scroll = 0;
    }

    /// Asks for the preview of the selected entry if it is a regular file;
    /// until it comes, and for anything else, there is no preview.
    fn open_file(&mut self) -> (r: Request)
        requires
            old(self)@.inv(),
        ensures
            final(self)@ == old(self)@.open_file(),
            final(self)@.inv(),
            r@ == final(self)@.pending,
    {
        if self.selected < self.files.len() {
            self.clear_preview();
            if self.files[self.selected].is_file() {
                let path = self.files[self.selected].path.clone();
                self.ask(Request::Preview(path))
            } else {
                self.ask(Request::Idle)
            }
        } else {
            self.ask(Request::Idle)
        }
    }

    /// Moves the selection to `index` and opens what is there.
    fn select(&mut self, index: usize) -> (r: Request)
        requires
            old(self)@.inv(),
        ensures
            final(self)@ == old(self)@.select(index as nat),
            final(self)@.inv(),
            r@ == final(self)@.pending,
    {
        if index < self.files.len() {
            self.selected = index;
            self.open_file()
        } else {
            self.ask(Request::Idle)
        }
    }

    /// Enter on the selected entry: a directory is to be entered, anything
    /// else to be opened.
    pub fn enter_handler(&mut self) -> (r: Request)
        requires
            old(self)@.inv(),
        ensures
            final(self)@ == old(self)@.enter(),
            final(self)@.inv(),
            r@ == final(self)@.pending,
    {
        if self.selected < self.files.len() {
            if self.files[self.selected].is_dir() {
                self.enter_dir()
            } else {
                self.open_file()
            }
        } else {
            self.ask(Request::Idle)
        }
    }

    /// Asks for the listing of the selected entry, to move into it.
    /// Nothing moves before the listing is there.
    pub fn enter_dir(&mut self) -> (r: Request)
        requires
            old(self)@.inv(),
        ensures
            final(self)@ == old(self)@.enter_dir(),
            final(self)@.inv(),
            r@ == final(self)@.pending,
    {
        if self.selected < self.files.len() {
            let path = self.files[self.selected].path.clone();
            self.ask(Request::Navigate(path))
        } else {
            self.ask(Request::Idle)
        }
    }

    /// Towards the parent of the current directory. At the root nothing
    /// is asked.
    pub fn to_parent_dir(&mut self) -> (r: Request)
        requires
            old(self)@.inv(),
        ensures
            final(self)@ == old(self)@.to_parent(),
            final(self)@.inv(),
            r@ == final(self)@.pending,
    {
        match path_parent(self.current_dir.as_str()) {
            Some(parent) => self.ask(Request::Navigate(parent)),
            None => self.ask(Request::Idle),
        }
    }

    /// One entry up; from the first to the last.
    pub fn up(&mut self) -> (r: Request)
        requires
            old(self)@.inv(),
        ensures
            final(self)@ == old(self)@.up(),
            final(self)@.inv(),
            r@ == final(self)@.pending,
    {
        let index: usize = if self.files.len() == 0 {
            0
        } else if self.selected > 0 {
            self.selected - 1
        } else {
            self.files.len() - 1
        };
        self.select(index)
    }

    /// One entry down; from the last to the first.
    pub fn down(&mut self) -> (r: Request)
        requires
            old(self)@.inv(),
        ensures
            final(self)@ == old(self)@.down(),
            final(self)@.inv(),
            r@ == final(self)@.pending,
    {
        let index: usize = if self.files.len() == 0 {
            0
        } else if self.selected < self.files.len() - 1 {
            self.selected + 1
        } else {
            0
        };
        self.select(index)
    }

    /// One line up in the menu; from the first to the last.
    pub fn menu_up(&mut self)
        requires
            old(self)@.inv(),
        ensures
            final(self)@ == old(self)@.menu_up(),
            final(self)@.inv(),
    {
        if self.menu_selected > 0 {
            self.menu_selected -= 1;
        } else {
            self.menu_selected = MENU_LEN - 1;
        }
    }

    /// One line down in the menu; from the last to the first.
    pub fn menu_down(&mut self)
        requires
            old(self)@.inv(),
        ensures
            final(self)@ == old(self)@.menu_down(),
            final(self)@.inv(),
    {
        if self.menu_selected < MENU_LEN - 1 {
            self.menu_selected += 1;
        } else {
            self.menu_selected = 0;
        }
    }

    /// One line up in the context menu; from the first to the last.
    pub fn context_up(&mut self)
        requires
            old(self)@.inv(),
        ensures
            final(self)@ == old(self)@.context_up(),
            final(self)@.inv(),
    {
        if self.context_selected > 0 {
            self.context_selected -= 1;
        } else {
            self.context_selected = CONTEXT_LEN - 1;
        }
    }

    /// One line down in the context menu; from the last to the first.
    pub fn context_down(&mut self)
        requires
            old(self)@.inv(),
        ensures
            final(self)@ == old(self)@.context_down(),
            final(self)@.inv(),
    {
        if self.context_selected < CONTEXT_LEN - 1 {
            self.context_selected += 1;
        } else {
            self.context_selected = 0;
        }
    }

    /// Scrolls the preview a page up, unless it is less than a page down.
    pub fn page_up(&mut self)
        requires
            old(self)@.inv(),
        ensures
            final(self)@ == old(self)@.page_up(),
            final(self)@.inv(),
    {
        if self.file_scroll >= PAGE_STEP {
            self.file_scroll -= PAGE_STEP;
        }
    }

    /// Scrolls the preview a page down, as long as the first line shown is
    /// a line of the text.
    pub fn page_down(&mut self)
        requires
            old(self)@.inv(),
        ensures
            final(self)@ == old(self)@.page_down(),
            final(self)@.inv(),
    {
        if self.file_scroll < self.file_lines_count {
            self.file_scroll = if self.file_scroll <= usize::MAX - PAGE_STEP {
                self.file_scroll + PAGE_STEP
            } else {
                usize::MAX
            };
        }
    }

    /// The scores of the entries against `query`, in listing order.
    pub fn score_files(&self, query: &str) -> (r: Vec<Option<i64>>)
        ensures
            r@ == entry_scores(self@.files, query@),
    {
        score_entries(&self.files, query)
    }

    /// Ends a search whose scores, entry by entry, are `scores`: the first
    /// entry with a score becomes the selection.
    pub fn select_first_match(&mut self, scores: &Vec<Option<i64>>)
        requires
            old(self)@.inv(),
        ensures
            final(self)@ == old(self)@.searched(first_hit(scores@, old(self)@.files.len())),
            final(self)@.inv(),
    {
        let hit = find_first_hit(scores, self.files.len());
        proof {
            lemma_first_hit_in_range(scores@, self.files@.len());
        }
        match hit {
            Some(i) => {
                self.selected = i;
            },
            None => {},
        }
        self.search_buffer = String::new();
        self.default_input_mode();
        self.default_mode();
    }

    /// Runs the search for what is in the search buffer.
    pub fn find_in_current_dir(&mut self)
        requires
            old(self)@.inv(),
        ensures
            final(self)@ == old(self)@.find(),
            final(self)@.inv(),
    {
        let query = trim(self.search_buffer.as_str());
        if query.as_str().is_empty() {
            let scores: Vec<Option<i64>> = Vec::new();
            proof {
                lemma_first_hit_is(scores@, self.files@.len(), None);
            }
            self.select_first_match(&scores);
        } else {
            let scores = self.score_files(query.as_str());
            self.select_first_match(&scores);
        }
    }

    /// Goes to menu mode.
    pub fn menu_mode(&mut self)
        ensures
            final(self)@ == old(self)@.with_mode(Mode::Menu),
            old(self)@.inv() ==> final(self)@.inv(),
    {
        self.mode = Mode::Menu;
    }

    /// Goes to normal mode.
    pub fn default_mode(&mut self)
        ensures
            final(self)@ == old(self)@.with_mode(Mode::Normal),
            old(self)@.inv() ==> final(self)@.inv(),
    {
        self.mode = Mode::Normal;
    }

    /// Goes to search mode.
    pub fn search_mode(&mut self)
        ensures
            final(self)@ == old(self)@.with_mode(Mode::Search),
            old(self)@.inv() ==> final(self)@.inv(),
    {
        self.mode = Mode::Search;
    }

    /// Goes to context mode.
    pub fn context_mode(&mut self)
        ensures
            final(self)@ == old(self)@.with_mode(Mode::Context),
            old(self)@.inv() ==> final(self)@.inv(),
    {
        self.mode = Mode::Context;
    }

    /// Lets the menu take a name.
    pub fn input_mode(&mut self)
        ensures
            final(self)@ == old(self)@.input_mode(),
            old(self)@.inv() ==> final(self)@.inv(),
    {
        self.input_mode = InputMode::Input;
    }

    /// Lets the menu show its list again. A change that was waiting for a
    /// name is given up.
    pub fn default_input_mode(&mut self)
        ensures
            final(self)@ == old(self)@.default_input_mode(),
            old(self)@.inv() ==> final(self)@.inv(),
    {
        self.input_mode = InputMode::Normal;
        self.menu_action = None;
    }

    /// Gives up the name that is being typed, and the change that was
    /// waiting for it.
    pub fn abandon_input(&mut self)
        ensures
            final(self)@ == old(self)@.abandon_input(),
            old(self)@.inv() ==> final(self)@.inv(),
    {
        self.input_buffer = String::new();
        self.default_input_mode();
    }

    /// Gives up the search and goes back to normal mode.
    pub fn abandon_search(&mut self)
        ensures
            final(self)@ == old(self)@.abandon_search(),
            old(self)@.inv() ==> final(self)@.inv(),
    {
        self.search_buffer = String::new();
        self.default_mode();
    }

    /// The lines of the menu, top to bottom.
    pub fn show_menu(&self) -> (r: Vec<&'static str>)
        ensures
            labels(r@) == menu_labels(),
            r@.len() == MENU_LEN,
    {
        let r = vec!["Удалить", "Создать файл", "Создать папку", "Переименовать", "Отмена"];
        proof {
            assert(labels(r@) =~= menu_labels());
        }
        r
    }

    /// The lines of the context menu, top to bottom.
    pub fn show_context(&self) -> (r: Vec<&'static str>)
        ensures
            labels(r@) == context_labels(),
            r@.len() == CONTEXT_LEN,
    {
        let r = vec![
            "Открыть в Nano",
            "Открыть в Vim",
            "Открыть в WebStorm",
            "Открыть в RustRover",
            "Открыть в VS Code",
            "Отмена",
        ];
        proof {
            assert(labels(r@) =~= context_labels());
        }
        r
    }

    /// Asks for the removal of the selected entry: a directory with all
    /// that is in it, anything else as one file. The directory is listed
    /// again afterwards.
    fn delete_selected(&mut self) -> (r: Request)
        requires
            old(self)@.inv(),
        ensures
            final(self)@ == old(self)@.asking(old(self)@.delete_request()),
            final(self)@.inv(),
            r@ == final(self)@.pending,
    {
        let dir = self.current_dir.clone();
        if self.selected < self.files.len() {
            let path = self.files[self.selected].path.clone();
            if self.files[self.selected].is_dir() {
                self.ask(Request::Mutate(FsOp::RemoveDirAll(path), dir))
            } else {
                self.ask(Request::Mutate(FsOp::RemoveFile(path), dir))
            }
        } else {
            self.ask(Request::Refresh(dir))
        }
    }

    /// Enter on a line of the menu: the first line deletes at once, the
    /// next three wait for a name, the last leaves the menu.
    pub fn select_from_menu(&mut self) -> (r: Request)
        requires
            old(self)@.inv(),
        ensures
            final(self)@ == old(self)@.select_from_menu(),
            final(self)@.inv(),
            r@ == final(self)@.pending,
    {
        if self.menu_selected == 0 {
            self.delete_selected()
        } else if self.menu_selected == 1 {
            self.input_mode();
            self.menu_action = Some(MenuAction::CreateFile);
            self.ask(Request::Idle)
        } else if self.menu_selected == 2 {
            self.input_mode();
            self.menu_action = Some(MenuAction::CreateDir);
            self.ask(Request::Idle)
        } else if self.menu_selected == 3 {
            self.input_mode();
            self.menu_action = Some(MenuAction::Rename);
            self.ask(Request::Idle)
        } else {
            self.default_input_mode();
            self.default_mode();
            self.ask(Request::Idle)
        }
    }

    /// The program behind the line of the context menu at `index`.
    fn editor_name(index: usize) -> (r: Option<&'static str>)
        ensures
            match r {
                Some(name) => editor_at(index as nat) == Some(name@),
                None => editor_at(index as nat).is_none(),
            },
    {
        if index == 0 {
            Some("nano")
        } else if index == 1 {
            Some("vim")
        } else if index == 2 {
            Some("webstorm")
        } else if index == 3 {
            Some("rustrover")
        } else if index == 4 {
            Some("code")
        } else {
            None
        }
    }

    /// What the selected line of the context menu does.
    pub fn context_action(&self) -> (r: Option<ContextAction>)
        ensures
            r == context_action_at(self@.context_selected),
    {
        match Self::editor_name(self.context_selected) {
            Some(_) => Some(ContextAction::Open),
            None => None,
        }
    }

    /// Enter on a line of the context menu: asks for the editor of that
    /// line to be run on the selected entry, and goes back to normal mode.
    pub fn select_from_context(&mut self) -> (r: Request)
        requires
            old(self)@.inv(),
        ensures
            final(self)@ == old(self)@.select_from_context(),
            final(self)@.inv(),
            r@ == final(self)@.pending,
    {
        self.default_mode();
        match Self::editor_name(self.context_selected) {
            Some(editor) => {
                if self.selected < self.files.len() {
                    let path = self.files[self.selected].path.clone();
                    self.ask(Request::Launch(editor.to_owned(), path))
                } else {
                    self.ask(Request::Idle)
                }
            },
            None => self.ask(Request::Idle),
        }
    }

    /// Asks for an empty file of the given name in the current directory.
    fn create_file(&mut self, name: &str) -> (r: Request)
        ensures
            final(self)@ == old(self)@.asking(r@),
            r@ == RequestModel::Mutate(
                FsOpModel::CreateFile(
                    joined(old(self)@.current_dir, name@),
                ),
                old(self)@.current_dir,
            ),
    {
        let path = path_join(self.current_dir.as_str(), name);
        let dir = self.current_dir.clone();
        self.ask(Request::Mutate(FsOp::CreateFile(path), dir))
    }

    /// Asks for a directory of the given name in the current directory.
    fn create_dir(&mut self, name: &str) -> (r: Request)
        ensures
            final(self)@ == old(self)@.asking(r@),
            r@ == RequestModel::Mutate(
                FsOpModel::CreateDir(
                    joined(old(self)@.current_dir, name@),
                ),
                old(self)@.current_dir,
            ),
    {
        let path = path_join(self.current_dir.as_str(), name);
        let dir = self.current_dir.clone();
        self.ask(Request::Mutate(FsOp::CreateDir(path), dir))
    }

    /// Asks for the selected entry to be renamed to `name`, beside where
    /// it was. With nothing selected only the listing is asked for.
    fn rename_selected(&mut self, name: &str) -> (r: Request)
        requires
            name@ == old(self)@.typed_name(),
        ensures
            final(self)@ == old(self)@.asking(r@),
            r@ == old(self)@.rename_request(),
    {
        let dir = self.current_dir.clone();
        if self.selected < self.files.len() {
            match path_parent(self.files[self.selected].path.as_str()) {
                Some(parent) => {
                    let from = self.files[self.selected].path.clone();
                    let to = path_join(parent.as_str(), name);
                    self.ask(Request::Mutate(FsOp::Rename(from, to), dir))
                },
                None => self.ask(Request::Refresh(dir)),
            }
        } else {
            self.ask(Request::Refresh(dir))
        }
    }

    /// Enter on a typed name: asks for the waiting change to be made with
    /// that name. The name is forgotten and the menu goes back to its list.
    pub fn handle_menu_action(&mut self) -> (r: Request)
        requires
            old(self)@.inv(),
        ensures
            final(self)@ == old(self)@.handle_menu_action(),
            final(self)@.inv(),
            r@ == final(self)@.pending,
    {
        let name = trim(self.input_buffer.as_str());
        let action = self.menu_action;
        let r = if name.as_str().is_empty() {
            self.ask(Request::Idle)
        } else {
            match action {
                Some(MenuAction::CreateFile) => self.create_file(name.as_str()),
                Some(MenuAction::CreateDir) => self.create_dir(name.as_str()),
                Some(MenuAction::Rename) => self.rename_selected(name.as_str()),
                _ => self.ask(Request::Idle),
            }
        };
        self.input_buffer = String::new();
        self.default_input_mode();
        r
    }

    /// Puts a fresh listing in place of the old one and keeps the
    /// selection inside it.
    fn update_file_list(&mut self, children: Vec<Entry>)
        requires
            old(self)@.inv(),
        ensures
            final(self)@ == old(self)@.refreshed(canonical(views(children@))),
            final(self)@.inv(),
    {
        let files = Self::get_file_list(children);
        self.files = files;
        let n = self.files.len();
        if n == 0 {
            self.selected = 0;
        } else if self.selected >= n {
            self.selected = n - 1;
        }
    }

    /// Takes the answer to the pending request into the state and reports
    /// how the request went. An answer of another kind than the request
    /// asks for is passed over, and the request stays pending.
    pub fn resume(&mut self, response: Response) -> (r: Result<(), IoError>)
        requires
            old(self)@.inv(),
        ensures
            final(self)@ == old(self)@.resumed(response@),
            r == old(self)@.report(response@),
            final(self)@.inv(),
    {
        let pending = self.pending.clone();
        match pending {
            Request::Preview(_) => match response {
                Response::Read(Ok(text)) => {
                    let lines = Self::get_file_lines_count(text.as_str());
                    self.content = Some(text);
                    self.file_lines_count = lines;
                    self.file_scroll = 0;
                    self.pending = Request::Idle;
                    Ok(())
                },
                Response::Read(Err(_)) => {
                    self.clear_preview();
                    self.pending = Request::Idle;
                    Ok(())
                },
                _ => Ok(()),
            },
            Request::Navigate(dir) => match response {
                Response::Listed(Ok(children)) => {
                    let files = Self::get_file_list(children);
                    self.current_dir = dir;
                    self.files = files;
                    self.selected = 0;
                    self.clear_preview();
                    self.pending = Request::Idle;
                    Ok(())
                },
                Response::Listed(Err(e)) => {
                    self.pending = Request::Idle;
                    Err(e)
                },
                _ => Ok(()),
            },
            Request::Refresh(_) => match response {
                Response::Listed(Ok(children)) => {
                    self.update_file_list(children);
                    self.pending = Request::Idle;
                    Ok(())
                },
                Response::Listed(Err(e)) => {
                    self.pending = Request::Idle;
                    Err(e)
                },
                _ => Ok(()),
            },
            Request::Mutate(_, _) => match response {
                Response::Mutated(done, Ok(children)) => {
                    self.update_file_list(children);
                    self.pending = Request::Idle;
                    match done {
                        Ok(_) => Ok(()),
                        Err(e) => Err(e),
                    }
                },
                Response::Mutated(done, Err(e)) => {
                    self.pending = Request::Idle;
                    match done {
                        Ok(_) => Err(e),
                        Err(first) => Err(first),
                    }
                },
                _ => Ok(()),
            },
            Request::Launch(_, _) => match response {
                Response::Launched(done) => {
                    self.pending = Request::Idle;
                    match done {
                        Ok(_) => Ok(()),
                        Err(e) => Err(e),
                    }
                },
                _ => Ok(()),
            },
            _ => Ok(()),
        }
    }
}

} // verus!
