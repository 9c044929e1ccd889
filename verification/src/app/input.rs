//! The keys that the browser listens to and the commands that they stand for.

use vstd::prelude::*;

verus! {

/// How far the selection moves when the control key is held.
pub const ACCELERATED_STEP: usize = 5;

/// A key of the keyboard, as far as the browser tells keys apart.
#[derive(Debug, Clone, Copy, PartialEq, Eq)]
pub enum Key {
    Up,
    Down,
    Enter,
    Backspace,
    /// A function key, with its number.
    F(u8),
    /// A key that stands for a character.
    Char(char),
    Other,
}

/// A key going down, with or without the control key held.
#[derive(Debug, Clone, Copy, PartialEq, Eq)]
pub struct KeyPress {
    pub key: Key,
    pub control: bool,
}

/// What the terminal reports.
#[derive(Debug, Clone, Copy, PartialEq, Eq)]
pub enum InputEvent {
    Press(KeyPress),
    /// Anything but a key going down.
    Other,
}

/// What the user can ask of the browser.
#[derive(Debug, Clone, Copy, PartialEq, Eq)]
pub enum Command {
    MoveUp(usize),
    MoveDown(usize),
    /// Open the selected entry.
    Activate,
    /// Go to the directory above.
    Up,
    /// List the directory again.
    Refresh,
    ToggleFilterMode,
    AppendFilterChar(char),
    BackspaceFilterChar,
    Quit,
}

impl Command {
    /// The step of a move: one, or `ACCELERATED_STEP` with the control key.
    pub open spec fn step(control: bool) -> usize {
        if control {
            ACCELERATED_STEP
        } else {
            1
        }
    }

    /// What a key means while the listing is not filtered.
    pub open spec fn of_files_key(press: KeyPress) -> Option<Command> {
        match press.key {
            Key::Up => Some(Command::MoveUp(Self::step(press.control))),
            Key::Down => Some(Command::MoveDown(Self::step(press.control))),
            Key::Enter => Some(Command::Activate),
            Key::Backspace => Some(Command::Up),
            Key::F(number) => if number == 5 {
                Some(Command::Refresh)
            } else {
                None
            },
            Key::Char(letter) => if letter == 'f' && press.control {
                Some(Command::ToggleFilterMode)
            } else {
                None
            },
            Key::Other => None,
        }
    }

    /// What a key means while the listing is filtered.
    pub open spec fn of_filter_key(press: KeyPress) -> Option<Command> {
        match press.key {
            Key::Up => Some(Command::MoveUp(Self::step(press.control))),
            Key::Down => Some(Command::MoveDown(Self::step(press.control))),
            Key::Enter => Some(Command::Activate),
            Key::Backspace => Some(Command::BackspaceFilterChar),
            Key::Char(letter) => if letter == 'f' && press.control {
                Some(Command::ToggleFilterMode)
            } else {
                Some(Command::AppendFilterChar(letter))
            },
            _ => None,
        }
    }

    /// Whether a key asks to leave: `q` or `c` with the control key.
    pub open spec fn is_quit_key(press: KeyPress) -> bool {
        press.control && (press.key == Key::Char('q') || press.key == Key::Char('c'))
    }

    /// What an event means: leaving comes first, then the meaning of the key in the
    /// mode that the browser is in. Anything but a key going down means nothing.
    pub open spec fn of_event(event: InputEvent, filter_mode: bool) -> Option<Command> {
        match event {
            InputEvent::Press(press) => if Self::is_quit_key(press) {
                Some(Command::Quit)
            } else if filter_mode {
                Self::of_filter_key(press)
            } else {
                Self::of_files_key(press)
            },
            InputEvent::Other => None,
        }
    }

    fn exec_step(control: bool) -> (step: usize)
        ensures
            step == Self::step(control),
    {
        if control {
            ACCELERATED_STEP
        } else {
            1
        }
    }

    /// What a key means while the listing is not filtered.
    pub fn from_files_key(press: KeyPress) -> (command: Option<Command>)
        ensures
            command == Self::of_files_key(press),
    {
        match press.key {
            Key::Up => Some(Command::MoveUp(Self::exec_step(press.control))),
            Key::Down => Some(Command::MoveDown(Self::exec_step(press.control))),
            Key::Enter => Some(Command::Activate),
            Key::Backspace => Some(Command::Up),
            Key::F(number) => if number == 5 {
                Some(Command::Refresh)
            } else {
                None
            },
            Key::Char(letter) => if letter == 'f' && press.control {
                Some(Command::ToggleFilterMode)
            } else {
                None
            },
            Key::Other => None,
        }
    }

    /// What a key means while the listing is filtered.
    pub fn from_filter_key(press: KeyPress) -> (command: Option<Command>)
        ensures
            command == Self::of_filter_key(press),
    {
        match press.key {
            Key::Up => Some(Command::MoveUp(Self::exec_step(press.control))),
            Key::Down => Some(Command::MoveDown(Self::exec_step(press.control))),
            Key::Enter => Some(Command::Activate),
            Key::Backspace => Some(Command::BackspaceFilterChar),
            Key::Char(letter) => if letter == 'f' && press.control {
                Some(Command::ToggleFilterMode)
            } else {
                Some(Command::AppendFilterChar(letter))
            },
            _ => None,
        }
    }

    /// What an event means in the given mode.
    pub fn from_event(event: InputEvent, filter_mode: bool) -> (command: Option<Command>)
        ensures
            command == Self::of_event(event, filter_mode),
    {
        match event {
            InputEvent::Press(press) => {
                let quit = press.control && match press.key {
                    Key::Char(letter) => letter == 'q' || letter == 'c',
                    _ => false,
                };
                if quit {
                    Some(Command::Quit)
                } else if filter_mode {
                    Self::from_filter_key(press)
                } else {
                    Self::from_files_key(press)
                }
            },
            InputEvent::Other => None,
        }
    }
}

} // verus!
