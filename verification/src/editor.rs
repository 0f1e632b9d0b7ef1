//! The editor: the state that the control loop owns, and the step that takes
//! it from one input event to the next.

use vstd::prelude::*;
use crate::buffer::{lines_view, LineBuffer};
use crate::command::{parse_command, Command};
use crate::cursor::Cursor;
use crate::input::{translate, Action, EditorMode, InputEvent};
use crate::shortcut::{recognize, spelling, Shortcut, ShortcutProgress};
use crate::state::{
    lemma_apply_keeps_well_formed, lemma_events_keep_the_state_in_order,
    lemma_step_keeps_the_state_in_order, EditorState,
};

verus! {

/// What a front end reads to draw the editor: the mode, the text, the
/// cursor and the command being typed.
pub struct Snapshot<'a> {
    pub mode: EditorMode,
    pub lines: &'a Vec<Vec<char>>,
    pub cursor: Cursor,
    pub command_text: &'a Vec<char>,
}

/// The editor. It starts in visual mode with one empty line, and changes
/// only through `handle_event`, `apply` and `execute_command`.
pub struct Editor {
    cursor: Cursor,
    mode: EditorMode,
    quit: bool,
    lines: LineBuffer,
    command: Vec<char>,
    shortcut_buffer: Vec<char>,
}

impl View for Editor {
    type V = EditorState;

    closed spec fn view(&self) -> EditorState {
        EditorState {
            mode: self.mode,
            column: self.cursor.column as int,
            row: self.cursor.row as int,
            lines: self.lines@,
            command: self.command@,
            shortcut: self.shortcut_buffer@,
            quit: self.quit,
        }
    }
}

impl Editor {
    /// The buffer has a line, and the cursor stands on one of its lines.
    pub open spec fn wf(&self) -> bool {
        self@.wf()
    }

    /// The editor in its initial state.
    pub fn new() -> (editor: Self)
        ensures
            editor.wf(),
            editor@ == EditorState::initial(),
            editor@.tidy(),
    {
        proof {
            lemma_events_keep_the_state_in_order(Seq::<InputEvent>::empty());
        }
        Editor {
            cursor: Cursor::new(),
            mode: EditorMode::Visual,
            quit: false,
            lines: LineBuffer::new(),
            command: Vec::new(),
            shortcut_buffer: Vec::new(),
        }
    }

    /// Whether the buffer has a line and the cursor stands on one of its
    /// lines. Every editor that `new` made and `handle_event`, `apply` or
    /// `execute_command` changed says yes.
    pub fn is_well_formed(&self) -> (ok: bool)
        ensures
            ok == self.wf(),
    {
        let count = self.lines.line_count();
        count >= 1 && self.cursor.row < count
    }

    /// The active mode.
    pub fn mode(&self) -> (mode: EditorMode)
        ensures
            mode == self@.mode,
    {
        self.mode
    }

    /// The cursor.
    pub fn cursor(&self) -> (cursor: Cursor)
        ensures
            cursor.column == self@.column,
            cursor.row == self@.row,
    {
        self.cursor
    }

    /// The text.
    pub fn buffer(&self) -> (buffer: &LineBuffer)
        ensures
            buffer@ == self@.lines,
    {
        &self.lines
    }

    /// The command typed so far.
    pub fn command_text(&self) -> (text: &Vec<char>)
        ensures
            text@ == self@.command,
    {
        &self.command
    }

    /// The shortcut typed so far.
    pub fn shortcut_buffer(&self) -> (keys: &Vec<char>)
        ensures
            keys@ == self@.shortcut,
    {
        &self.shortcut_buffer
    }

    /// Whether the editor has been told to quit.
    pub fn should_quit(&self) -> (quit: bool)
        ensures
            quit == self@.quit,
    {
        self.quit
    }

    /// Generates the snapshot that a front end draws.
    pub fn generate(&self) -> (snapshot: Snapshot<'_>)
        ensures
            snapshot.mode == self@.mode,
            lines_view(snapshot.lines@) == self@.lines,
            snapshot.cursor.column == self@.column,
            snapshot.cursor.row == self@.row,
            snapshot.command_text@ == self@.command,
    {
        Snapshot {
            mode: self.mode,
            lines: self.lines.lines(),
            cursor: self.cursor,
            command_text: &self.command,
        }
    }

    /// Commits the command typed so far: `q` tells the editor to quit, any
    /// other text is passed over. Either way the command text is dropped and
    /// visual mode begins, with no shortcut being typed. This is what
    /// `Action::ExecuteCommand` does.
    pub fn execute_command(&mut self)
        ensures
            final(self)@ == old(self)@.commit_command(),
            final(self)@ == old(self)@.apply(Action::ExecuteCommand),
            final(self).wf() == old(self).wf(),
            final(self)@.tidy(),
    {
        self.dispatch_command();
        self.command.clear();
        self.shortcut_buffer.clear();
        self.mode = EditorMode::Visual;
        proof {
            let empty = Seq::<char>::empty();
            assert(empty =~= spelling(Shortcut::MoveToBegin).subrange(0, 0));
        }
    }

    fn dispatch_command(&mut self)
        ensures
            final(self)@ == old(self)@.dispatch_command(),
    {
        match parse_command(&self.command) {
            Command::Quit => {
                self.quit = true;
            },
            Command::Unknown => {},
        }
    }

    fn open_line_below(&mut self)
        requires
            old(self).wf(),
        ensures
            final(self)@ == old(self)@.open_line_below(),
    {
        self.lines.insert_line_after(self.cursor.row);
        let last_row = self.lines.line_count() - 1;
        self.cursor.move_down(last_row);
    }

    fn enter_visual_mode(&mut self)
        requires
            old(self).wf(),
        ensures
            final(self)@ == old(self)@.enter_visual_mode(),
    {
        match self.mode {
            EditorMode::Visual => {},
            EditorMode::Insert => {
                if self.cursor.column == self.lines.line_length(self.cursor.row) {
                    self.cursor.move_left();
                }
                self.mode = EditorMode::Visual;
            },
            EditorMode::Command => {
                self.command.clear();
                self.mode = EditorMode::Visual;
            },
        }
    }

    fn move_cursor_right(&mut self)
        requires
            old(self).wf(),
        ensures
            final(self)@ == old(self)@.move_cursor_right(),
    {
        let length = self.lines.line_length(self.cursor.row);
        if length == 0 {
            self.cursor.move_right(0);
        } else {
            self.cursor.move_right(length - 1);
        }
    }

    fn move_cursor_down(&mut self)
        requires
            old(self).wf(),
        ensures
            final(self)@ == old(self)@.move_cursor_down(),
    {
        let count = self.lines.line_count();
        self.cursor.move_down(count - 1);
    }

    fn delete_line(&mut self)
        requires
            old(self).wf(),
        ensures
            final(self)@ == old(self)@.delete_line(),
    {
        let removed = self.lines.remove_line(self.cursor.row);
        if removed {
            let last_row = self.lines.line_count() - 1;
            if self.cursor.row > last_row {
                self.cursor.row = last_row;
            }
        }
    }

    fn fire(&mut self, shortcut: Shortcut)
        requires
            old(self).wf(),
        ensures
            final(self)@ == old(self)@.fire(shortcut),
    {
        match shortcut {
            Shortcut::MoveToBegin => {
                self.cursor.move_cursor_to_begin();
            },
            Shortcut::MoveToEnd => {
                let count = self.lines.line_count();
                self.cursor.move_cursor_to_end(count - 1);
            },
            Shortcut::DeleteLine => {
                self.delete_line();
            },
        }
    }

    fn append_shortcut_char(&mut self, c: char)
        requires
            old(self).wf(),
        ensures
            final(self)@ == old(self)@.append_shortcut_char(c),
    {
        self.shortcut_buffer.push(c);
        match recognize(&self.shortcut_buffer) {
            ShortcutProgress::Fired(shortcut) => {
                self.shortcut_buffer.clear();
                self.fire(shortcut);
            },
            ShortcutProgress::Pending => {},
            ShortcutProgress::Dead => {
                self.shortcut_buffer.clear();
            },
        }
    }

    fn backspace(&mut self)
        requires
            old(self).wf(),
        ensures
            final(self)@ == old(self)@.backspace(),
    {
        let row = self.cursor.row;
        let length = self.lines.line_length(row);
        let column = if self.cursor.column <= length {
            self.cursor.column
        } else {
            length
        };
        let position = self.lines.delete_char_before(row, column);
        self.cursor.column = position.0;
        self.cursor.row = position.1;
    }

    fn remove_cursor_char(&mut self)
        requires
            old(self).wf(),
        ensures
            final(self)@ == old(self)@.remove_cursor_char(),
    {
        let row = self.cursor.row;
        let length = self.lines.line_length(row);
        if length > 0 {
            let column = if self.cursor.column < length {
                self.cursor.column
            } else {
                length - 1
            };
            self.cursor.column = self.lines.delete_char_at(row, column);
        }
    }

    fn spares_shortcut(&self, action: &Action) -> (spares: bool)
        ensures
            spares == self@.spares_shortcut(*action),
    {
        match action {
            Action::AppendShortcutChar(_) => true,
            Action::Unknown => true,
            Action::EnterVisualMode => match self.mode {
                EditorMode::Visual => true,
                _ => false,
            },
            _ => false,
        }
    }

    fn perform(&mut self, action: Action)
        requires
            old(self).wf(),
        ensures
            final(self)@ == old(self)@.perform(action),
    {
        match action {
            Action::EnterInsertMode => {
                self.mode = EditorMode::Insert;
            },
            Action::EnterVisualMode => {
                self.enter_visual_mode();
            },
            Action::EnterCommandMode => {
                self.command.clear();
                self.mode = EditorMode::Command;
            },
            Action::MoveCursorLeft => {
                self.cursor.move_left();
            },
            Action::MoveCursorRight => {
                self.move_cursor_right();
            },
            Action::MoveCursorDown => {
                self.move_cursor_down();
            },
            Action::MoveCursorUp => {
                self.cursor.move_up();
            },
            Action::Quit => {
                self.quit = true;
            },
            Action::Unknown => {},
            Action::EnterCommandChar(c) => {
                self.command.push(c);
            },
            Action::ExecuteCommand => {
                self.execute_command();
            },
            Action::EnterChar(c) => {
                self.cursor.column = self.lines.insert_char(
                    self.cursor.row,
                    self.cursor.column,
                    c,
                );
            },
            Action::NewLine => {
                self.open_line_below();
            },
            Action::EnterInsertModeNext => {
                self.cursor.move_right(usize::MAX);
                self.mode = EditorMode::Insert;
            },
            Action::AppendShortcutChar(c) => {
                self.append_shortcut_char(c);
            },
            Action::ClearShortcutBuffer => {
                self.shortcut_buffer.clear();
            },
            Action::BackspaceInInsertMode => {
                self.backspace();
            },
            Action::EnterInsertModeInNewLine => {
                self.open_line_below();
                self.mode = EditorMode::Insert;
            },
            Action::RemoveCursorChar => {
                self.remove_cursor_char();
            },
        }
    }

    /// Applies one action to the editor. Every action is defined in every
    /// state: one that cannot be carried out leaves the buffer and the cursor
    /// as they are. The shortcut being typed outlives only the typing of its
    /// own characters and the actions that do nothing.
    pub fn apply(&mut self, action: Action)
        requires
            old(self).wf(),
        ensures
            final(self).wf(),
            final(self)@ == old(self)@.apply(action),
    {
        let spares = self.spares_shortcut(&action);
        self.perform(action);
        if !spares {
            self.shortcut_buffer.clear();
        }
        proof {
            lemma_apply_keeps_well_formed(old(self)@, action);
        }
    }

    /// Takes the editor through one input event: the event is translated in
    /// the active mode, and the action applied. Where nothing typed was left
    /// over from another mode before, nothing is afterwards.
    pub fn handle_event(&mut self, event: &InputEvent)
        requires
            old(self).wf(),
        ensures
            final(self).wf(),
            final(self)@ == old(self)@.step(*event),
            old(self)@.tidy() ==> final(self)@.tidy(),
    {
        let action = translate(self.mode, event);
        self.apply(action);
        proof {
            if old(self)@.tidy() {
                lemma_step_keeps_the_state_in_order(old(self)@, *event);
            }
        }
    }
}

} // verus!
