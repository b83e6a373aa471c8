//! What is to be drawn: a reading of the browser's state, frame by frame.

use crate::entry::{name_of, views, Entry, EntryKind, EntryModel};
use crate::manager::{context_labels, labels, menu_labels, FileManager};
use crate::model::{InputMode, Mode, State};
use vstd::prelude::*;

verus! {

/// One line of the listing.
#[derive(Debug, PartialEq, Eq)]
pub struct Row {
    /// The name of the entry.
    pub name: String,
    /// Whether the entry is a directory.
    pub is_dir: bool,
    /// Whether the entry is the selected one.
    pub selected: bool,
}

/// The mathematical value of a [`Row`].
pub struct RowModel {
    pub name: Seq<char>,
    pub is_dir: bool,
    pub selected: bool,
}

impl View for Row {
    type V = RowModel;

    open spec fn view(&self) -> RowModel {
        RowModel { name: self.name@, is_dir: self.is_dir, selected: self.selected }
    }
}

/// What is shown beside the listing.
#[derive(Debug, PartialEq, Eq)]
pub enum Panel {
    /// The text of the selected file, from the given line on.
    Preview(String, usize),
    /// No file is shown.
    NoPreview,
    /// The name that is being typed.
    NameInput(String),
    /// The lines of the menu, and the index of the selected one.
    Menu(Vec<&'static str>, usize),
    /// The query that is being typed.
    Query(String),
    /// The lines of the context menu, and the index of the selected one.
    Context(Vec<&'static str>, usize),
}

/// The mathematical value of a [`Panel`].
pub enum PanelModel {
    Preview(Seq<char>, nat),
    NoPreview,
    NameInput(Seq<char>),
    Menu(Seq<Seq<char>>, nat),
    Query(Seq<char>),
    Context(Seq<Seq<char>>, nat),
}

impl View for Panel {
    type V = PanelModel;

    open spec fn view(&self) -> PanelModel {
        match self {
            Panel::Preview(text, scroll) => PanelModel::Preview(text@, *scroll as nat),
            Panel::NoPreview => PanelModel::NoPreview,
            Panel::NameInput(name) => PanelModel::NameInput(name@),
            Panel::Menu(lines, selected) => PanelModel::Menu(labels(lines@), *selected as nat),
            Panel::Query(query) => PanelModel::Query(query@),
            Panel::Context(lines, selected) => PanelModel::Context(labels(lines@), *selected as nat),
        }
    }
}

/// The values of a sequence of rows.
pub open spec fn row_views(rows: Seq<Row>) -> Seq<RowModel> {
    rows.map_values(|r: Row| r@)
}

/// The line of the listing for the entry at `index`.
pub open spec fn row_at(s: State, index: int) -> RowModel {
    RowModel {
        name: name_of(s.files[index].path),
        is_dir: s.files[index].kind == EntryKind::Directory,
        selected: index == s.selected,
    }
}

/// The lines of the listing: one per entry, in listing order.
pub open spec fn rows_of(s: State) -> Seq<RowModel> {
    Seq::new(s.files.len(), |i: int| row_at(s, i))
}

/// What is shown beside the listing: in normal mode the preview, in the
/// menu its list or the name that is typed, in a search the query, in
/// context mode the context menu.
pub open spec fn panel_of(s: State) -> PanelModel {
    match s.mode {
        Mode::Normal => match s.content {
            Some(text) => PanelModel::Preview(text, s.file_scroll),
            None => PanelModel::NoPreview,
        },
        Mode::Menu => match s.input_mode {
            InputMode::Input => PanelModel::NameInput(s.input_buffer),
            InputMode::Normal => PanelModel::Menu(menu_labels(), s.menu_selected),
        },
        Mode::Search => PanelModel::Query(s.search_buffer),
        Mode::Context => PanelModel::Context(context_labels(), s.context_selected),
    }
}

impl FileManager {
    /// The lines of the listing as they are to be drawn.
    pub fn rows(&self) -> (r: Vec<Row>)
        ensures
            row_views(r@) == rows_of(self@),
    {
        let files = self.get_files();
        let selected = *self.get_selected();
        let mut r: Vec<Row> = Vec::new();
        let mut i: usize = 0;
        while i < files.len()
            invariant
                i <= files@.len(),
                views(files@) == self@.files,
                selected == self@.selected,
                row_views(r@) == rows_of(self@).take(i as int),
            decreases files@.len() - i,
        {
            let ghost before = row_views(r@);
            let row = Row { name: files[i].name(), is_dir: files[i].is_dir(), selected: i == selected };
            proof {
                assert(views(files@)[i as int] == files@[i as int]@);
                assert(row@ == row_at(self@, i as int));
            }
            r.push(row);
            proof {
                assert(row_views(r@) =~= before.push(row_at(self@, i as int)));
                assert(row_views(r@) =~= rows_of(self@).take(i + 1));
            }
            i += 1;
        }
        proof {
            assert(rows_of(self@).take(files@.len() as int) =~= rows_of(self@));
        }
        r
    }

    /// What is to be drawn beside the listing.
    pub fn panel(&self) -> (r: Panel)
        ensures
            r@ == panel_of(self@),
    {
        match self.get_mode() {
            Mode::Normal => match self.get_content() {
                Some(text) => Panel::Preview(text.clone(), *self.get_file_scroll()),
                None => Panel::NoPreview,
            },
            Mode::Menu => match self.get_input_mode() {
                InputMode::Input => Panel::NameInput(self.get_input_buffer().clone()),
                InputMode::Normal => Panel::Menu(self.show_menu(), *self.get_menu_selected()),
            },
            Mode::Search => Panel::Query(self.get_search_buffer().clone()),
            Mode::Context => Panel::Context(self.show_context(), *self.get_context_selected()),
        }
    }
}

} // verus!
