//! The browser as a mathematical state machine: its state, the invariant
//! that every reachable state meets, and one function per transition.

use crate::entry::{canonical, sorted, EntryKind, EntryModel};
use crate::path::{joined, parent_of};
use crate::request::{FsOpModel, IoError, RequestModel, ResponseModel};
use crate::search::{entry_scores, first_hit};
use crate::text::{line_count, trimmed};
use vstd::prelude::*;

verus! {

/// The top-level mode. Exactly one is active at a time.
#[derive(Clone, Copy, Debug, PartialEq, Eq, Structural)]
pub enum Mode {
    Normal,
    Menu,
    Search,
    Context,
}

/// The sub-mode of the menu: typing a name, or choosing from the list.
#[derive(Clone, Copy, Debug, PartialEq, Eq, Structural)]
pub enum InputMode {
    Input,
    Normal,
}

/// A change chosen from the menu and not yet carried out.
#[derive(Clone, Copy, Debug, PartialEq, Eq, Structural)]
pub enum MenuAction {
    CreateFile,
    CreateDir,
    Rename,
    Delete,
    Cancel,
}

/// What a line of the context menu does.
#[derive(Clone, Copy, Debug, PartialEq, Eq, Structural)]
pub enum ContextAction {
    Open,
}

/// Number of lines of the menu.
pub const MENU_LEN: usize = 5;

/// Number of lines of the context menu: one per editor, then "cancel".
pub const CONTEXT_LEN: usize = 6;

/// How far one page key moves the preview.
pub const PAGE_STEP: usize = 2;

/// The whole state of the browser.
pub struct State {
    pub current_dir: Seq<char>,
    pub files: Seq<EntryModel>,
    pub selected: nat,
    pub content: Option<Seq<char>>,
    pub file_scroll: nat,
    pub file_lines_count: nat,
    pub mode: Mode,
    pub input_mode: InputMode,
    pub input_buffer: Seq<char>,
    pub menu_action: Option<MenuAction>,
    pub menu_selected: nat,
    pub context_selected: nat,
    pub search_buffer: Seq<char>,
    pub pending: RequestModel,
}

/// The program behind a line of the context menu; the last line, and any
/// index beyond it, has none.
pub open spec fn editor_at(index: nat) -> Option<Seq<char>> {
    if index == 0 {
        Some("nano"@)
    } else if index == 1 {
        Some("vim"@)
    } else if index == 2 {
        Some("webstorm"@)
    } else if index == 3 {
        Some("rustrover"@)
    } else if index == 4 {
        Some("code"@)
    } else {
        None
    }
}

impl State {
    /// What holds of every state the browser can be in.
    pub open spec fn inv(self) -> bool {
        &&& sorted(self.files)
        &&& if self.files.len() == 0 {
            self.selected == 0
        } else {
            self.selected < self.files.len()
        }
        &&& match self.content {
            Some(text) => self.file_lines_count == line_count(text),
            None => self.file_lines_count == 0 && self.file_scroll == 0,
        }
        &&& self.file_scroll <= self.file_lines_count + 1
        &&& (self.menu_action.is_some() ==> self.input_mode == InputMode::Input)
        &&& self.menu_selected < MENU_LEN
        &&& self.context_selected < CONTEXT_LEN
    }

    /// The state of a browser that was just started in `dir`, whose
    /// children are `children`.
    pub open spec fn initial(dir: Seq<char>, children: Seq<EntryModel>) -> State {
        State {
            current_dir: dir,
            files: canonical(children),
            selected: 0,
            content: None,
            file_scroll: 0,
            file_lines_count: 0,
            mode: Mode::Normal,
            input_mode: InputMode::Normal,
            input_buffer: Seq::empty(),
            menu_action: None,
            menu_selected: 0,
            context_selected: 0,
            search_buffer: Seq::empty(),
            pending: RequestModel::Idle,
        }
    }

    /// The selected entry, if there is any entry.
    pub open spec fn selected_entry(self) -> Option<EntryModel> {
        if self.selected < self.files.len() {
            Some(self.files[self.selected as int])
        } else {
            None
        }
    }

    /// The same state with no preview and the scroll offset at the top.
    pub open spec fn without_preview(self) -> State {
        State { content: None, file_lines_count: 0, file_scroll: 0, ..self }
    }

    /// The same state with another request pending.
    pub open spec fn asking(self, request: RequestModel) -> State {
        State { pending: request, ..self }
    }

    /// The index above the selection; above the first comes the last.
    pub open spec fn prev_index(self) -> nat {
        if self.files.len() == 0 {
            0
        } else if self.selected > 0 {
            (self.selected - 1) as nat
        } else {
            (self.files.len() - 1) as nat
        }
    }

    /// The index below the selection; below the last comes the first.
    pub open spec fn next_index(self) -> nat {
        if self.files.len() == 0 {
            0
        } else if self.selected + 1 < self.files.len() {
            self.selected + 1
        } else {
            0
        }
    }

    /// Asks for the preview of the selected entry if it is a regular file.
    /// Until it comes, and for anything that is no regular file, there is
    /// no preview and the scroll offset is at the top.
    pub open spec fn open_file(self) -> State {
        match self.selected_entry() {
            Some(e) => if e.kind == EntryKind::File {
                self.without_preview().asking(RequestModel::Preview(e.path))
            } else {
                self.without_preview().asking(RequestModel::Idle)
            },
            None => self.asking(RequestModel::Idle),
        }
    }

    /// Moves the selection to `index` and opens what is there. With no
    /// entries nothing moves and nothing is asked.
    pub open spec fn select(self, index: nat) -> State {
        if index < self.files.len() {
            State { selected: index, ..self }.open_file()
        } else {
            self.asking(RequestModel::Idle)
        }
    }

    /// One step up in the listing.
    pub open spec fn up(self) -> State {
        self.select(self.prev_index())
    }

    /// One step down in the listing.
    pub open spec fn down(self) -> State {
        self.select(self.next_index())
    }

    /// One step up in the menu.
    pub open spec fn menu_up(self) -> State {
        State {
            menu_selected: if self.menu_selected > 0 {
                (self.menu_selected - 1) as nat
            } else {
                (MENU_LEN - 1) as nat
            },
            ..self
        }
    }

    /// One step down in the menu.
    pub open spec fn menu_down(self) -> State {
        State {
            menu_selected: if self.menu_selected + 1 < MENU_LEN {
                self.menu_selected + 1
            } else {
                0
            },
            ..self
        }
    }

    /// One step up in the context menu.
    pub open spec fn context_up(self) -> State {
        State {
            context_selected: if self.context_selected > 0 {
                (self.context_selected - 1) as nat
            } else {
                (CONTEXT_LEN - 1) as nat
            },
            ..self
        }
    }

    /// One step down in the context menu.
    pub open spec fn context_down(self) -> State {
        State {
            context_selected: if self.context_selected + 1 < CONTEXT_LEN {
                self.context_selected + 1
            } else {
                0
            },
            ..self
        }
    }

    /// The preview moves a page up, unless it is less than a page down.
    pub open spec fn page_up(self) -> State {
        State {
            file_scroll: if self.file_scroll >= PAGE_STEP {
                (self.file_scroll - PAGE_STEP) as nat
            } else {
                self.file_scroll
            },
            ..self
        }
    }

    /// The preview moves a page down while the offset is on a line of the
    /// text; the offset never leaves the machine's range.
    pub open spec fn page_down(self) -> State {
        State {
            file_scroll: if self.file_scroll + 1 <= self.file_lines_count {
                if self.file_scroll + PAGE_STEP <= usize::MAX {
                    (self.file_scroll + PAGE_STEP) as nat
                } else {
                    usize::MAX as nat
                }
            } else {
                self.file_scroll
            },
            ..self
        }
    }

    /// Asks for the listing of the selected entry, to move into it.
    pub open spec fn enter_dir(self) -> State {
        match self.selected_entry() {
            Some(e) => self.asking(RequestModel::Navigate(e.path)),
            None => self.asking(RequestModel::Idle),
        }
    }

    /// Enter on the selection: a directory is to be listed, anything else
    /// to be opened.
    pub open spec fn enter(self) -> State {
        match self.selected_entry() {
            Some(e) => if e.kind == EntryKind::Directory {
                self.enter_dir()
            } else {
                self.open_file()
            },
            None => self.asking(RequestModel::Idle),
        }
    }

    /// Towards the parent directory; at the root nothing is asked.
    pub open spec fn to_parent(self) -> State {
        match parent_of(self.current_dir) {
            Some(p) => self.asking(RequestModel::Navigate(p)),
            None => self.asking(RequestModel::Idle),
        }
    }

    /// The same state in another mode.
    pub open spec fn with_mode(self, mode: Mode) -> State {
        State { mode, ..self }
    }

    /// The menu starts to take a name.
    pub open spec fn input_mode(self) -> State {
        State { input_mode: InputMode::Input, ..self }
    }

    /// The menu goes back to its list; a change that was waiting for a
    /// name is given up.
    pub open spec fn default_input_mode(self) -> State {
        State { input_mode: InputMode::Normal, menu_action: None, ..self }
    }

    /// The name that is being typed is given up, and with it the change
    /// that was waiting for it.
    pub open spec fn abandon_input(self) -> State {
        State { input_buffer: Seq::empty(), ..self.default_input_mode() }
    }

    /// The search is given up: the query is forgotten and the browser is
    /// back in normal mode.
    pub open spec fn abandon_search(self) -> State {
        State { search_buffer: Seq::empty(), ..self.with_mode(Mode::Normal) }
    }

    /// A character is typed into the name.
    pub open spec fn add_to_input_buffer(self, c: char) -> State {
        State { input_buffer: self.input_buffer.push(c), ..self }
    }

    /// The last character of the name is taken back.
    pub open spec fn delete_from_input_buffer(self) -> State {
        State {
            input_buffer: if self.input_buffer.len() > 0 {
                self.input_buffer.drop_last()
            } else {
                self.input_buffer
            },
            ..self
        }
    }

    /// A character is typed into the query.
    pub open spec fn add_to_search_buffer(self, c: char) -> State {
        State { search_buffer: self.search_buffer.push(c), ..self }
    }

    /// The last character of the query is taken back.
    pub open spec fn delete_from_search_buffer(self) -> State {
        State {
            search_buffer: if self.search_buffer.len() > 0 {
                self.search_buffer.drop_last()
            } else {
                self.search_buffer
            },
            ..self
        }
    }

    /// The end of a search: the selection goes to the hit, if there is
    /// one, the query is forgotten and the browser is back in normal mode.
    pub open spec fn searched(self, hit: Option<nat>) -> State {
        State {
            selected: match hit {
                Some(i) => i,
                None => self.selected,
            },
            search_buffer: Seq::empty(),
            mode: Mode::Normal,
            ..self.default_input_mode()
        }
    }

    /// The query that a search runs with.
    pub open spec fn query(self) -> Seq<char> {
        trimmed(self.search_buffer)
    }

    /// A search for the query in the buffer. An empty query finds nothing.
    pub open spec fn find(self) -> State {
        if self.query().len() == 0 {
            self.searched(None)
        } else {
            self.searched(first_hit(entry_scores(self.files, self.query()), self.files.len()))
        }
    }

    /// The request that removes the selected entry, or that only lists the
    /// directory again where nothing is selected.
    pub open spec fn delete_request(self) -> RequestModel {
        match self.selected_entry() {
            Some(e) => RequestModel::Mutate(
                if e.kind == EntryKind::Directory {
                    FsOpModel::RemoveDirAll(e.path)
                } else {
                    FsOpModel::RemoveFile(e.path)
                },
                self.current_dir,
            ),
            None => RequestModel::Refresh(self.current_dir),
        }
    }

    /// Enter on a line of the menu.
    pub open spec fn select_from_menu(self) -> State {
        if self.menu_selected == 0 {
            self.asking(self.delete_request())
        } else if self.menu_selected == 1 {
            State {
                input_mode: InputMode::Input,
                menu_action: Some(MenuAction::CreateFile),
                ..self.asking(RequestModel::Idle)
            }
        } else if self.menu_selected == 2 {
            State {
                input_mode: InputMode::Input,
                menu_action: Some(MenuAction::CreateDir),
                ..self.asking(RequestModel::Idle)
            }
        } else if self.menu_selected == 3 {
            State {
                input_mode: InputMode::Input,
                menu_action: Some(MenuAction::Rename),
                ..self.asking(RequestModel::Idle)
            }
        } else {
            self.default_input_mode().with_mode(Mode::Normal).asking(RequestModel::Idle)
        }
    }

    /// The name that a change from the menu is made with.
    pub open spec fn typed_name(self) -> Seq<char> {
        trimmed(self.input_buffer)
    }

    /// The request that renames the selected entry to the typed name,
    /// beside where it was.
    pub open spec fn rename_request(self) -> RequestModel {
        match self.selected_entry() {
            Some(e) => match parent_of(e.path) {
                Some(p) => RequestModel::Mutate(
                    FsOpModel::Rename(e.path, joined(p, self.typed_name())),
                    self.current_dir,
                ),
                None => RequestModel::Refresh(self.current_dir),
            },
            None => RequestModel::Refresh(self.current_dir),
        }
    }

    /// The request that carries out the waiting change with the typed
    /// name. An empty name, or no waiting change, asks nothing.
    pub open spec fn action_request(self) -> RequestModel {
        if self.typed_name().len() == 0 {
            RequestModel::Idle
        } else {
            match self.menu_action {
                Some(MenuAction::CreateFile) => RequestModel::Mutate(
                    FsOpModel::CreateFile(joined(self.current_dir, self.typed_name())),
                    self.current_dir,
                ),
                Some(MenuAction::CreateDir) => RequestModel::Mutate(
                    FsOpModel::CreateDir(joined(self.current_dir, self.typed_name())),
                    self.current_dir,
                ),
                Some(MenuAction::Rename) => self.rename_request(),
                _ => RequestModel::Idle,
            }
        }
    }

    /// Enter on a typed name: the waiting change is taken and asked for,
    /// the name is forgotten and the menu is back at its list.
    pub open spec fn handle_menu_action(self) -> State {
        State {
            input_buffer: Seq::empty(),
            ..self.default_input_mode().asking(self.action_request())
        }
    }

    /// Enter on a line of the context menu: the editor of that line is to
    /// be run on the selected entry. Either way the browser is back in
    /// normal mode.
    pub open spec fn select_from_context(self) -> State {
        let request = match (editor_at(self.context_selected), self.selected_entry()) {
            (Some(editor), Some(e)) => RequestModel::Launch(editor, e.path),
            _ => RequestModel::Idle,
        };
        self.with_mode(Mode::Normal).asking(request)
    }

    /// The selection that is kept when the listing is replaced by one of
    /// `len` entries.
    pub open spec fn clamped(self, len: nat) -> nat {
        if len == 0 {
            0
        } else if self.selected < len {
            self.selected
        } else {
            (len - 1) as nat
        }
    }

    /// The directory was listed again: `files` replaces the listing, and
    /// the selection stays where it was as far as the new listing goes.
    pub open spec fn refreshed(self, files: Seq<EntryModel>) -> State {
        State { files, selected: self.clamped(files.len()), ..self }
    }

    /// The browser moved into `dir`, whose listing is `files`.
    pub open spec fn moved_to(self, dir: Seq<char>, files: Seq<EntryModel>) -> State {
        State { current_dir: dir, files, selected: 0, ..self.without_preview() }
    }

    /// Whether `response` answers the pending request.
    pub open spec fn answers(self, response: ResponseModel) -> bool {
        match (self.pending, response) {
            (RequestModel::Preview(_), ResponseModel::Read(_)) => true,
            (RequestModel::Navigate(_), ResponseModel::Listed(_)) => true,
            (RequestModel::Refresh(_), ResponseModel::Listed(_)) => true,
            (RequestModel::Mutate(_, _), ResponseModel::Mutated(_, _)) => true,
            (RequestModel::Launch(_, _), ResponseModel::Launched(_)) => true,
            _ => false,
        }
    }

    /// The state after `response` came back. A listing is put in place in
    /// canonical order. A response that does not answer the pending
    /// request changes nothing; a listing that failed leaves the listing,
    /// the directory and the selection as they were.
    pub open spec fn resumed(self, response: ResponseModel) -> State {
        match (self.pending, response) {
            (RequestModel::Preview(_), ResponseModel::Read(Ok(text))) => State {
                content: Some(text),
                file_lines_count: line_count(text),
                file_scroll: 0,
                ..self.asking(RequestModel::Idle)
            },
            (RequestModel::Preview(_), ResponseModel::Read(Err(_))) => self.without_preview().asking(
                RequestModel::Idle,
            ),
            (RequestModel::Navigate(dir), ResponseModel::Listed(Ok(l))) => self.moved_to(
                dir,
                canonical(l),
            ).asking(RequestModel::Idle),
            (RequestModel::Refresh(_), ResponseModel::Listed(Ok(l))) => self.refreshed(
                canonical(l),
            ).asking(RequestModel::Idle),
            (RequestModel::Mutate(_, _), ResponseModel::Mutated(_, Ok(l))) => self.refreshed(
                canonical(l),
            ).asking(RequestModel::Idle),
            _ => if self.answers(response) {
                self.asking(RequestModel::Idle)
            } else {
                self
            },
        }
    }

    /// What is reported after `response` came back: the failure of the
    /// change, else that of the listing or of the editor's run. A preview
    /// that cannot be read is no failure.
    pub open spec fn report(self, response: ResponseModel) -> Result<(), IoError> {
        match (self.pending, response) {
            (RequestModel::Navigate(_), ResponseModel::Listed(Err(e))) => Err(e),
            (RequestModel::Refresh(_), ResponseModel::Listed(Err(e))) => Err(e),
            (RequestModel::Mutate(_, _), ResponseModel::Mutated(Err(e), _)) => Err(e),
            (RequestModel::Mutate(_, _), ResponseModel::Mutated(Ok(_), Err(e))) => Err(e),
            (RequestModel::Launch(_, _), ResponseModel::Launched(Err(e))) => Err(e),
            _ => Ok(()),
        }
    }
}

} // verus!
