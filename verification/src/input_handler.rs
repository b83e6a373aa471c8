//! From key events to operations of the browser, mode by mode.

use crate::manager::FileManager;
use crate::model::{InputMode, Mode, State};
use crate::request::{Request, RequestModel};
use vstd::prelude::*;

verus! {

/// The key that was pressed.
#[derive(Clone, Copy, Debug, PartialEq, Eq, Structural)]
pub enum KeyCode {
    Char(char),
    Up,
    Down,
    PageUp,
    PageDown,
    Enter,
    Right,
    Left,
    Backspace,
    Esc,
    /// Any key the browser has no use for.
    Other,
}

/// A key press: the key, and whether control, and nothing else, was held.
#[derive(Clone, Copy, Debug, PartialEq, Eq, Structural)]
pub struct KeyEvent {
    pub code: KeyCode,
    pub control: bool,
}

/// What the terminal reports.
#[derive(Clone, Copy, Debug, PartialEq, Eq, Structural)]
pub enum Event {
    Key(KeyEvent),
    /// Anything that is no key press: a resize, the mouse.
    Other,
}

/// The interrupt: control held with `c`.
pub open spec fn is_interrupt(key: KeyEvent) -> bool {
    key.control && key.code == KeyCode::Char('c')
}

/// A key in normal mode.
pub open spec fn normal_key(s: State, key: KeyEvent) -> State {
    match key.code {
        KeyCode::Char(c) => if c == 'q' {
            s.asking(RequestModel::Quit)
        } else if c == 'm' {
            s.default_input_mode().with_mode(Mode::Menu).asking(RequestModel::Idle)
        } else if c == 'f' {
            s.with_mode(Mode::Search).asking(RequestModel::Idle)
        } else {
            s.asking(RequestModel::Idle)
        },
        KeyCode::Down => s.down(),
        KeyCode::Up => s.up(),
        KeyCode::PageDown => s.page_down().asking(RequestModel::Idle),
        KeyCode::PageUp => s.page_up().asking(RequestModel::Idle),
        KeyCode::Enter | KeyCode::Right => s.enter(),
        KeyCode::Backspace | KeyCode::Left => s.to_parent(),
        _ => s.asking(RequestModel::Idle),
    }
}

/// A key in the menu while it shows its list.
pub open spec fn menu_list_key(s: State, key: KeyEvent) -> State {
    match key.code {
        KeyCode::Esc | KeyCode::Backspace => s.with_mode(Mode::Normal).asking(RequestModel::Idle),
        KeyCode::Down => s.menu_down().asking(RequestModel::Idle),
        KeyCode::Up => s.menu_up().asking(RequestModel::Idle),
        KeyCode::Enter | KeyCode::Right => s.select_from_menu(),
        _ => s.asking(RequestModel::Idle),
    }
}

/// A key in the menu while it takes a name.
pub open spec fn input_key(s: State, key: KeyEvent) -> State {
    if is_interrupt(key) {
        s.abandon_input().asking(RequestModel::Idle)
    } else {
        match key.code {
            KeyCode::Char(c) => s.add_to_input_buffer(c).asking(RequestModel::Idle),
            KeyCode::Backspace => s.delete_from_input_buffer().asking(RequestModel::Idle),
            KeyCode::Enter => s.handle_menu_action(),
            _ => s.asking(RequestModel::Idle),
        }
    }
}

/// A key in menu mode.
pub open spec fn menu_key(s: State, key: KeyEvent) -> State {
    match s.input_mode {
        InputMode::Input => input_key(s, key),
        InputMode::Normal => menu_list_key(s, key),
    }
}

/// A key in search mode.
pub open spec fn search_key(s: State, key: KeyEvent) -> State {
    if is_interrupt(key) {
        s.abandon_search().asking(RequestModel::Idle)
    } else {
        match key.code {
            KeyCode::Char(c) => s.add_to_search_buffer(c).asking(RequestModel::Idle),
            KeyCode::Backspace => s.delete_from_search_buffer().asking(RequestModel::Idle),
            KeyCode::Enter => s.find().asking(RequestModel::Idle),
            _ => s.asking(RequestModel::Idle),
        }
    }
}

/// A key in context mode.
pub open spec fn context_key(s: State, key: KeyEvent) -> State {
    match key.code {
        KeyCode::Down => s.context_down().asking(RequestModel::Idle),
        KeyCode::Up => s.context_up().asking(RequestModel::Idle),
        KeyCode::Enter | KeyCode::Right => s.select_from_context(),
        _ => s.asking(RequestModel::Idle),
    }
}

/// An event, in whatever mode the browser is in. What is no key press
/// changes nothing.
pub open spec fn step(s: State, event: Event) -> State {
    match event {
        Event::Key(key) => match s.mode {
            Mode::Normal => normal_key(s, key),
            Mode::Menu => menu_key(s, key),
            Mode::Search => search_key(s, key),
            Mode::Context => context_key(s, key),
        },
        Event::Other => s.asking(RequestModel::Idle),
    }
}

/// Whether the key is the interrupt.
fn interrupts(key: KeyEvent) -> (r: bool)
    ensures
        r == is_interrupt(key),
{
    key.control && match key.code {
        KeyCode::Char(c) => c == 'c',
        _ => false,
    }
}

/// Handles an event in normal mode.
pub fn normal_mode(event: Event, file_manager: &mut FileManager) -> (r: Request)
    requires
        old(file_manager)@.inv(),
    ensures
        final(file_manager)@ == match event {
            Event::Key(key) => normal_key(old(file_manager)@, key),
            Event::Other => old(file_manager)@.asking(RequestModel::Idle),
        },
        final(file_manager)@.inv(),
        r@ == final(file_manager)@.pending,
{
    match event {
        Event::Key(key) => match key.code {
            KeyCode::Char(c) => {
                if c == 'q' {
                    file_manager.ask(Request::Quit)
                } else if c == 'm' {
                    file_manager.default_input_mode();
                    file_manager.menu_mode();
                    file_manager.ask(Request::Idle)
                } else if c == 'f' {
                    file_manager.search_mode();
                    file_manager.ask(Request::Idle)
                } else {
                    file_manager.ask(Request::Idle)
                }
            },
            KeyCode::Down => file_manager.down(),
            KeyCode::Up => file_manager.up(),
            KeyCode::PageDown => {
                file_manager.page_down();
                file_manager.ask(Request::Idle)
            },
            KeyCode::PageUp => {
                file_manager.page_up();
                file_manager.ask(Request::Idle)
            },
            KeyCode::Enter | KeyCode::Right => file_manager.enter_handler(),
            KeyCode::Backspace | KeyCode::Left => file_manager.to_parent_dir(),
            _ => file_manager.ask(Request::Idle),
        },
        Event::Other => file_manager.ask(Request::Idle),
    }
}

/// Handles an event in the menu while it shows its list.
pub fn handle_normal_input_mode(event: Event, file_manager: &mut FileManager) -> (r: Request)
    requires
        old(file_manager)@.inv(),
    ensures
        final(file_manager)@ == match event {
            Event::Key(key) => menu_list_key(old(file_manager)@, key),
            Event::Other => old(file_manager)@.asking(RequestModel::Idle),
        },
        final(file_manager)@.inv(),
        r@ == final(file_manager)@.pending,
{
    match event {
        Event::Key(key) => match key.code {
            KeyCode::Esc | KeyCode::Backspace => {
                file_manager.default_mode();
                file_manager.ask(Request::Idle)
            },
            KeyCode::Down => {
                file_manager.menu_down();
                file_manager.ask(Request::Idle)
            },
            KeyCode::Up => {
                file_manager.menu_up();
                file_manager.ask(Request::Idle)
            },
            KeyCode::Enter | KeyCode::Right => file_manager.select_from_menu(),
            _ => file_manager.ask(Request::Idle),
        },
        Event::Other => file_manager.ask(Request::Idle),
    }
}

/// Handles an event in the menu while it takes a name.
pub fn input_mode(event: Event, file_manager: &mut FileManager) -> (r: Request)
    requires
        old(file_manager)@.inv(),
    ensures
        final(file_manager)@ == match event {
            Event::Key(key) => input_key(old(file_manager)@, key),
            Event::Other => old(file_manager)@.asking(RequestModel::Idle),
        },
        final(file_manager)@.inv(),
        r@ == final(file_manager)@.pending,
{
    match event {
        Event::Key(key) => {
            if interrupts(key) {
                file_manager.abandon_input();
                file_manager.ask(Request::Idle)
            } else {
                match key.code {
                    KeyCode::Char(c) => {
                        file_manager.add_to_input_buffer(c);
                        file_manager.ask(Request::Idle)
                    },
                    KeyCode::Backspace => {
                        file_manager.delete_from_input_buffer();
                        file_manager.ask(Request::Idle)
                    },
                    KeyCode::Enter => file_manager.handle_menu_action(),
                    _ => file_manager.ask(Request::Idle),
                }
            }
        },
        Event::Other => file_manager.ask(Request::Idle),
    }
}

/// Handles an event in menu mode.
pub fn menu_mode(event: Event, file_manager: &mut FileManager) -> (r: Request)
    requires
        old(file_manager)@.inv(),
    ensures
        final(file_manager)@ == match event {
            Event::Key(key) => menu_key(old(file_manager)@, key),
            Event::Other => old(file_manager)@.asking(RequestModel::Idle),
        },
        final(file_manager)@.inv(),
        r@ == final(file_manager)@.pending,
{
    match file_manager.get_input_mode() {
        InputMode::Input => input_mode(event, file_manager),
        InputMode::Normal => handle_normal_input_mode(event, file_manager),
    }
}

/// Handles an event in search mode.
pub fn search_mode(event: Event, file_manager: &mut FileManager) -> (r: Request)
    requires
        old(file_manager)@.inv(),
    ensures
        final(file_manager)@ == match event {
            Event::Key(key) => search_key(old(file_manager)@, key),
            Event::Other => old(file_manager)@.asking(RequestModel::Idle),
        },
        final(file_manager)@.inv(),
        r@ == final(file_manager)@.pending,
{
    match event {
        Event::Key(key) => {
            if interrupts(key) {
                file_manager.abandon_search();
                file_manager.ask(Request::Idle)
            } else {
                match key.code {
                    KeyCode::Char(c) => {
                        file_manager.add_to_search_buffer(c);
                        file_manager.ask(Request::Idle)
                    },
                    KeyCode::Backspace => {
                        file_manager.delete_from_search_buffer();
                        file_manager.ask(Request::Idle)
                    },
                    KeyCode::Enter => {
                        file_manager.find_in_current_dir();
                        file_manager.ask(Request::Idle)
                    },
                    _ => file_manager.ask(Request::Idle),
                }
            }
        },
        Event::Other => file_manager.ask(Request::Idle),
    }
}

/// Handles an event in context mode.
pub fn context_mode(event: Event, file_manager: &mut FileManager) -> (r: Request)
    requires
        old(file_manager)@.inv(),
    ensures
        final(file_manager)@ == match event {
            Event::Key(key) => context_key(old(file_manager)@, key),
            Event::Other => old(file_manager)@.asking(RequestModel::Idle),
        },
        final(file_manager)@.inv(),
        r@ == final(file_manager)@.pending,
{
    match event {
        Event::Key(key) => match key.code {
            KeyCode::Down => {
                file_manager.context_down();
                file_manager.ask(Request::Idle)
            },
            KeyCode::Up => {
                file_manager.context_up();
                file_manager.ask(Request::Idle)
            },
            KeyCode::Enter | KeyCode::Right => file_manager.select_from_context(),
            _ => file_manager.ask(Request::Idle),
        },
        Event::Other => file_manager.ask(Request::Idle),
    }
}

/// Handles an event in whatever mode the browser is in, and says what the
/// caller has to do next.
pub fn handle_event(event: Event, file_manager: &mut FileManager) -> (r: Request)
    requires
        old(file_manager)@.inv(),
    ensures
        final(file_manager)@ == step(old(file_manager)@, event),
        final(file_manager)@.inv(),
        r@ == final(file_manager)@.pending,
{
    match file_manager.get_mode() {
        Mode::Normal => normal_mode(event, file_manager),
        Mode::Menu => menu_mode(event, file_manager),
        Mode::Search => search_mode(event, file_manager),
        Mode::Context => context_mode(event, file_manager),
    }
}

} // verus!
