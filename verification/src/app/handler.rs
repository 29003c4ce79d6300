//! From a key to the command it stands for, and from a command to the
//! operation that carries it out.

use vstd::prelude::*;
use crate::app::request::{Request, RequestView};
use crate::app::state::{App, AppView};

verus! {

/// Whether the browser goes on after a key.
#[derive(Debug, Clone, Copy, PartialEq, Eq, Structural)]
pub enum HandlerResult {
    Continue,
    Quit,
}

/// The keys that the browser tells apart.
#[derive(Debug, Clone, Copy, PartialEq, Eq, Structural)]
pub enum Key {
    Char(char),
    Up,
    Down,
    Left,
    Right,
    Enter,
    Backspace,
    /// Any other key.
    Other,
}

/// A key as it was pressed.
#[derive(Debug, Clone, Copy, PartialEq, Eq, Structural)]
pub struct KeyPress {
    pub key: Key,
    /// The modifier keys held down with it, one bit each; see `CONTROL`.
    pub modifiers: u8,
}

/// The bit of the control key in `KeyPress::modifiers`.
pub const CONTROL: u8 = 2;

/// What the user can ask of the browser.
#[derive(Debug, Clone, Copy, PartialEq, Eq, Structural)]
pub enum Command {
    Quit,
    ScrollPreviewDown,
    ScrollPreviewUp,
    ToggleRecursiveView,
    ToggleFold,
    SelectNext,
    SelectPrevious,
    LeaveDirectory,
    EnterDirectory,
}

/// The command that a key stands for: `q` quits; `j` and `k` scroll the
/// preview where control, and nothing but control, is held with them, and
/// move the selection otherwise, as the arrows down and up do; `e` switches
/// the view and `t` folds; `h`, backspace and the left arrow go up a
/// directory; `l`, enter and the right arrow go into one. No other key
/// stands for anything.
pub open spec fn command_for(press: KeyPress) -> Option<Command> {
    match press.key {
        Key::Char(c) => if c == 'q' {
            Some(Command::Quit)
        } else if c == 'j' && press.modifiers == CONTROL {
            Some(Command::ScrollPreviewDown)
        } else if c == 'k' && press.modifiers == CONTROL {
            Some(Command::ScrollPreviewUp)
        } else if c == 'e' {
            Some(Command::ToggleRecursiveView)
        } else if c == 't' {
            Some(Command::ToggleFold)
        } else if c == 'j' {
            Some(Command::SelectNext)
        } else if c == 'k' {
            Some(Command::SelectPrevious)
        } else if c == 'h' {
            Some(Command::LeaveDirectory)
        } else if c == 'l' {
            Some(Command::EnterDirectory)
        } else {
            None
        },
        Key::Down => Some(Command::SelectNext),
        Key::Up => Some(Command::SelectPrevious),
        Key::Backspace => Some(Command::LeaveDirectory),
        Key::Left => Some(Command::LeaveDirectory),
        Key::Enter => Some(Command::EnterDirectory),
        Key::Right => Some(Command::EnterDirectory),
        Key::Other => None,
    }
}

/// Finds the command that a key stands for.
pub fn key_command(press: KeyPress) -> (command: Option<Command>)
    ensures
        command == command_for(press),
{
    match press.key {
        Key::Char(c) => {
            if c == 'q' {
                Some(Command::Quit)
            } else if c == 'j' && press.modifiers == CONTROL {
                Some(Command::ScrollPreviewDown)
            } else if c == 'k' && press.modifiers == CONTROL {
                Some(Command::ScrollPreviewUp)
            } else if c == 'e' {
                Some(Command::ToggleRecursiveView)
            } else if c == 't' {
                Some(Command::ToggleFold)
            } else if c == 'j' {
                Some(Command::SelectNext)
            } else if c == 'k' {
                Some(Command::SelectPrevious)
            } else if c == 'h' {
                Some(Command::LeaveDirectory)
            } else if c == 'l' {
                Some(Command::EnterDirectory)
            } else {
                None
            }
        },
        Key::Down => Some(Command::SelectNext),
        Key::Up => Some(Command::SelectPrevious),
        Key::Backspace | Key::Left => Some(Command::LeaveDirectory),
        Key::Enter | Key::Right => Some(Command::EnterDirectory),
        Key::Other => None,
    }
}

impl AppView {
    /// The state after a command, before anything has been read for it.
    pub open spec fn after(self, command: Command) -> AppView {
        match command {
            Command::Quit => self,
            Command::ScrollPreviewDown => self.scroll_preview_down(),
            Command::ScrollPreviewUp => self.scroll_preview_up(),
            Command::ToggleRecursiveView => self.toggle_recursive_view(),
            Command::ToggleFold => self.toggle_fold(),
            Command::SelectNext => self.select_next(),
            Command::SelectPrevious => self.select_previous(),
            Command::LeaveDirectory => self.leave_directory(),
            Command::EnterDirectory => self.enter_directory(),
        }
    }

    /// What a command asks to have read.
    pub open spec fn request_of(self, command: Command) -> RequestView {
        match command {
            Command::Quit => RequestView::Nothing,
            Command::ScrollPreviewDown => RequestView::Nothing,
            Command::ScrollPreviewUp => RequestView::Nothing,
            Command::ToggleRecursiveView => self.toggle_recursive_view().panels_request(),
            Command::ToggleFold => self.fold_request(),
            Command::SelectNext => self.select_next().preview_request(),
            Command::SelectPrevious => self.select_previous().preview_request(),
            Command::LeaveDirectory => self.leave_request(),
            Command::EnterDirectory => self.enter_request(),
        }
    }
}

impl App {
    /// Carries out a command: the operation of that name, with its result.
    /// `Quit` changes nothing and ends the session.
    pub fn run_command(&mut self, command: Command) -> (outcome: (HandlerResult, Request))
        ensures
            final(self)@ == old(self)@.after(command),
            outcome.1@ == old(self)@.request_of(command),
            outcome.0 == HandlerResult::Quit <==> command == Command::Quit,
            old(self).wf() ==> final(self).wf(),
    {
        let mut request = Request::Nothing;
        match command {
            Command::Quit => {
                return (HandlerResult::Quit, request);
            },
            Command::ScrollPreviewDown => {
                self.scroll_preview_down();
            },
            Command::ScrollPreviewUp => {
                self.scroll_preview_up();
            },
            Command::ToggleRecursiveView => {
                request = self.toggle_recursive_view();
            },
            Command::ToggleFold => {
                request = self.toggle_fold();
            },
            Command::SelectNext => {
                request = self.select_next();
            },
            Command::SelectPrevious => {
                request = self.select_previous();
            },
            Command::LeaveDirectory => {
                request = self.leave_directory();
            },
            Command::EnterDirectory => {
                request = self.enter_directory();
            },
        }
        (HandlerResult::Continue, request)
    }

    /// Takes a key: carries out the command it stands for, as `run_command`
    /// does, and does nothing for a key that stands for none.
    pub fn handle_key_event(&mut self, key: KeyPress) -> (outcome: (HandlerResult, Request))
        ensures
            match command_for(key) {
                Some(command) => {
                    &&& final(self)@ == old(self)@.after(command)
                    &&& outcome.1@ == old(self)@.request_of(command)
                    &&& outcome.0 == HandlerResult::Quit <==> command == Command::Quit
                },
                None => {
                    &&& *final(self) == *old(self)
                    &&& outcome.1@ == RequestView::Nothing
                    &&& outcome.0 == HandlerResult::Continue
                },
            },
            old(self).wf() ==> final(self).wf(),
    {
        match key_command(key) {
            Some(command) => self.run_command(command),
            None => (HandlerResult::Continue, Request::Nothing),
        }
    }
}

} // verus!
