//! Input events, the modes, and the table that turns an event into the one
//! action it stands for in the active mode.

use vstd::prelude::*;

verus! {

/// The mode the editor is in.
#[derive(Clone, Copy, Debug, PartialEq, Eq, Structural)]
pub enum EditorMode {
    /// Keys put characters into the buffer at the cursor.
    Insert,
    /// The mode the editor starts in: keys move the cursor or spell a
    /// shortcut of several keys.
    Visual,
    /// Keys spell a command, which Enter carries out.
    Command,
}

/// A key press, as far as the editor tells keys apart.
#[derive(Clone, Copy, Debug, PartialEq, Eq, Structural)]
pub enum Key {
    /// A key that stands for one character.
    Char(char),
    Esc,
    Enter,
    Backspace,
    /// Any other key.
    Other,
}

/// One event from the front end.
#[derive(Clone, Copy, Debug, PartialEq, Eq, Structural)]
pub enum InputEvent {
    Key(Key),
    /// Anything that is not a key press.
    Other,
}

/// What an event asks the editor to do.
#[derive(Clone, Copy, Debug, PartialEq, Eq, Structural)]
pub enum Action {
    /// Go to insert mode with the cursor where it is.
    EnterInsertMode,
    /// Go to visual mode.
    EnterVisualMode,
    /// Go to command mode.
    EnterCommandMode,
    MoveCursorLeft,
    MoveCursorRight,
    MoveCursorDown,
    MoveCursorUp,
    /// Leave the editor.
    Quit,
    /// Do nothing.
    Unknown,
    /// Add a character to the command being typed.
    EnterCommandChar(char),
    /// Carry out the command that was typed.
    ExecuteCommand,
    /// Put a character into the buffer at the cursor.
    EnterChar(char),
    /// Open an empty line below the cursor's and go down onto it.
    NewLine,
    /// Go to insert mode one column to the right.
    EnterInsertModeNext,
    /// Add a character to the shortcut being typed.
    AppendShortcutChar(char),
    /// Forget the shortcut being typed.
    ClearShortcutBuffer,
    /// Delete the character before the cursor.
    BackspaceInInsertMode,
    /// Open an empty line below the cursor's and go to insert mode on it.
    EnterInsertModeInNewLine,
    /// Delete the character under the cursor.
    RemoveCursorChar,
}

/// What an event means in insert mode.
pub open spec fn insert_mode_action(event: InputEvent) -> Action {
    match event {
        InputEvent::Key(Key::Esc) => Action::EnterVisualMode,
        InputEvent::Key(Key::Enter) => Action::NewLine,
        InputEvent::Key(Key::Backspace) => Action::BackspaceInInsertMode,
        InputEvent::Key(Key::Char(c)) => Action::EnterChar(c),
        _ => Action::Unknown,
    }
}

/// What a character key means in visual mode: a few letters act at once, every
/// other character goes to the shortcut being typed.
pub open spec fn visual_mode_char_action(c: char) -> Action {
    if c == 'i' {
        Action::EnterInsertMode
    } else if c == 'a' {
        Action::EnterInsertModeNext
    } else if c == 'o' {
        Action::EnterInsertModeInNewLine
    } else if c == ':' {
        Action::EnterCommandMode
    } else if c == 'h' {
        Action::MoveCursorLeft
    } else if c == 'l' {
        Action::MoveCursorRight
    } else if c == 'j' {
        Action::MoveCursorDown
    } else if c == 'k' {
        Action::MoveCursorUp
    } else if c == 'x' {
        Action::RemoveCursorChar
    } else {
        Action::AppendShortcutChar(c)
    }
}

/// What an event means in visual mode.
pub open spec fn visual_mode_action(event: InputEvent) -> Action {
    match event {
        InputEvent::Key(Key::Esc) => Action::ClearShortcutBuffer,
        InputEvent::Key(Key::Char(c)) => visual_mode_char_action(c),
        _ => Action::Unknown,
    }
}

/// What an event means in command mode.
pub open spec fn command_mode_action(event: InputEvent) -> Action {
    match event {
        InputEvent::Key(Key::Esc) => Action::EnterVisualMode,
        InputEvent::Key(Key::Enter) => Action::ExecuteCommand,
        InputEvent::Key(Key::Char(c)) => Action::EnterCommandChar(c),
        _ => Action::Unknown,
    }
}

/// The action that `event` stands for while the editor is in `mode`.
pub open spec fn action_for(mode: EditorMode, event: InputEvent) -> Action {
    match mode {
        EditorMode::Insert => insert_mode_action(event),
        EditorMode::Visual => visual_mode_action(event),
        EditorMode::Command => command_mode_action(event),
    }
}

/// Whether `mode` gives `event` a meaning: the event is a key press, and the
/// key is one the mode listens to.
pub open spec fn is_mapped(mode: EditorMode, event: InputEvent) -> bool {
    match event {
        InputEvent::Key(key) => match mode {
            EditorMode::Insert => key is Esc || key is Enter || key is Backspace || key is Char,
            EditorMode::Visual => key is Esc || key is Char,
            EditorMode::Command => key is Esc || key is Enter || key is Char,
        },
        InputEvent::Other => false,
    }
}

/// An event to which the mode gives no meaning stands for `Action::Unknown`,
/// and no other event does.
pub proof fn lemma_unmapped_events_do_nothing(mode: EditorMode, event: InputEvent)
    ensures
        is_mapped(mode, event) <==> action_for(mode, event) != Action::Unknown,
{
}

/// Translates an event that arrives in insert mode.
pub fn handle_insert_mode_event(event: &InputEvent) -> (action: Action)
    ensures
        action == insert_mode_action(*event),
{
    match event {
        InputEvent::Key(key) => match key {
            Key::Esc => Action::EnterVisualMode,
            Key::Enter => Action::NewLine,
            Key::Backspace => Action::BackspaceInInsertMode,
            Key::Char(c) => Action::EnterChar(*c),
            Key::Other => Action::Unknown,
        },
        InputEvent::Other => Action::Unknown,
    }
}

/// Translates an event that arrives in visual mode.
pub fn handle_visual_mode_event(event: &InputEvent) -> (action: Action)
    ensures
        action == visual_mode_action(*event),
{
    match event {
        InputEvent::Key(key) => match key {
            Key::Esc => Action::ClearShortcutBuffer,
            Key::Char('i') => Action::EnterInsertMode,
            Key::Char('a') => Action::EnterInsertModeNext,
            Key::Char('o') => Action::EnterInsertModeInNewLine,
            Key::Char(':') => Action::EnterCommandMode,
            Key::Char('h') => Action::MoveCursorLeft,
            Key::Char('l') => Action::MoveCursorRight,
            Key::Char('j') => Action::MoveCursorDown,
            Key::Char('k') => Action::MoveCursorUp,
            Key::Char('x') => Action::RemoveCursorChar,
            Key::Char(c) => Action::AppendShortcutChar(*c),
            _ => Action::Unknown,
        },
        InputEvent::Other => Action::Unknown,
    }
}

/// Translates an event that arrives in command mode.
pub fn handle_command_mode_event(event: &InputEvent) -> (action: Action)
    ensures
        action == command_mode_action(*event),
{
    match event {
        InputEvent::Key(key) => match key {
            Key::Esc => Action::EnterVisualMode,
            Key::Enter => Action::ExecuteCommand,
            Key::Char(c) => Action::EnterCommandChar(*c),
            _ => Action::Unknown,
        },
        InputEvent::Other => Action::Unknown,
    }
}

/// Translates an event into the one action it stands for in `mode`. Every
/// pair of a mode and an event has an action; the pairs without a meaning
/// have `Action::Unknown`.
pub fn translate(mode: EditorMode, event: &InputEvent) -> (action: Action)
    ensures
        action == action_for(mode, *event),
        !is_mapped(mode, *event) ==> action == Action::Unknown,
{
    match mode {
        EditorMode::Insert => handle_insert_mode_event(event),
        EditorMode::Visual => handle_visual_mode_event(event),
        EditorMode::Command => handle_command_mode_event(event),
    }
}

} // verus!
