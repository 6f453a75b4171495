//! Input events and the abstract commands they stand for.

use crate::position::Size;
use vstd::prelude::*;

verus! {

/// A direction the cursor can move in.
#[derive(Copy, Clone, Debug, PartialEq, Eq, Structural)]
pub enum Direction {
    PageUp,
    PageDown,
    Home,
    End,
    Up,
    Left,
    Right,
    Down,
}

/// What an input event asks of the editor, whatever the mode.
#[derive(Copy, Clone, Debug, PartialEq, Eq, Structural)]
pub enum EditorCommand {
    Move(Direction),
    Key(char),
    Escape,
    Enter,
    Tab,
    Backspace,
    Delete,
    Resize(Size),
    Quit,
    Other,
}

/// A key of the keyboard.
#[derive(Copy, Clone, Debug, PartialEq, Eq, Structural)]
pub enum KeyCode {
    Char(char),
    Left,
    Right,
    Up,
    Down,
    PageUp,
    PageDown,
    Home,
    End,
    Enter,
    Tab,
    Backspace,
    Delete,
    Esc,
    Other,
}

/// A key going down, repeating or coming up, and whether Control was held.
#[derive(Copy, Clone, Debug, PartialEq, Eq, Structural)]
pub struct KeyEvent {
    pub code: KeyCode,
    pub control: bool,
    pub press: bool,
}

/// An event read from the terminal.
#[derive(Copy, Clone, Debug, PartialEq, Eq, Structural)]
pub enum Event {
    Key(KeyEvent),
    Resize(u16, u16),
    Other,
}

/// The command that a key stands for.
pub open spec fn key_command(key: KeyEvent) -> EditorCommand {
    if key.control {
        if key.code == KeyCode::Char('q') {
            EditorCommand::Quit
        } else {
            EditorCommand::Other
        }
    } else {
        match key.code {
            KeyCode::Char(c) => EditorCommand::Key(c),
            KeyCode::Left => EditorCommand::Move(Direction::Left),
            KeyCode::Right => EditorCommand::Move(Direction::Right),
            KeyCode::Up => EditorCommand::Move(Direction::Up),
            KeyCode::Down => EditorCommand::Move(Direction::Down),
            KeyCode::PageUp => EditorCommand::Move(Direction::PageUp),
            KeyCode::PageDown => EditorCommand::Move(Direction::PageDown),
            KeyCode::Home => EditorCommand::Move(Direction::Home),
            KeyCode::End => EditorCommand::Move(Direction::End),
            KeyCode::Enter => EditorCommand::Enter,
            KeyCode::Tab => EditorCommand::Tab,
            KeyCode::Backspace => EditorCommand::Backspace,
            KeyCode::Delete => EditorCommand::Delete,
            KeyCode::Esc => EditorCommand::Escape,
            KeyCode::Other => EditorCommand::Other,
        }
    }
}

impl EditorCommand {
    /// The command an event stands for: a key gives the command of that key,
    /// a new terminal size a resize; other events are not supported.
    pub fn try_from(event: Event) -> (r: Result<EditorCommand, String>)
        ensures
            match event {
                Event::Key(key) => r == Ok::<EditorCommand, String>(key_command(key)),
                Event::Resize(w, h) => r == Ok::<EditorCommand, String>(
                    EditorCommand::Resize(Size { width: w as usize, height: h as usize }),
                ),
                Event::Other => r is Err,
            },
    {
        match event {
            Event::Key(key) => {
                if key.control {
                    if key.code == KeyCode::Char('q') {
                        return Ok(EditorCommand::Quit);
                    }
                    return Ok(EditorCommand::Other);
                }
                let command = match key.code {
                    KeyCode::Char(c) => EditorCommand::Key(c),
                    KeyCode::Left => EditorCommand::Move(Direction::Left),
                    KeyCode::Right => EditorCommand::Move(Direction::Right),
                    KeyCode::Up => EditorCommand::Move(Direction::Up),
                    KeyCode::Down => EditorCommand::Move(Direction::Down),
                    KeyCode::PageUp => EditorCommand::Move(Direction::PageUp),
                    KeyCode::PageDown => EditorCommand::Move(Direction::PageDown),
                    KeyCode::Home => EditorCommand::Move(Direction::Home),
                    KeyCode::End => EditorCommand::Move(Direction::End),
                    KeyCode::Enter => EditorCommand::Enter,
                    KeyCode::Tab => EditorCommand::Tab,
                    KeyCode::Backspace => EditorCommand::Backspace,
                    KeyCode::Delete => EditorCommand::Delete,
                    KeyCode::Esc => EditorCommand::Escape,
                    KeyCode::Other => EditorCommand::Other,
                };
                Ok(command)
            },
            Event::Resize(width_u16, height_u16) => {
                let height = height_u16 as usize;
                let width = width_u16 as usize;
                Ok(EditorCommand::Resize(Size { width, height }))
            },
            Event::Other => Err(String::from_str("unsupported event")),
        }
    }
}

} // verus!
