//! The editor's state as a mathematical value, and what each action makes of
//! it. The executable editor is held to these definitions.

use vstd::prelude::*;
use crate::buffer::{
    column_after_delete_at, line_after_delete_at, line_with_char, lines_after_delete_before,
    position_after_delete_before,
};
use crate::command::{command_of, Command};
use crate::cursor::{step_back, step_forward};
use crate::input::{action_for, is_mapped, Action, EditorMode, InputEvent, Key};
use crate::shortcut::{begins_shortcut, progress_of, spelling, Shortcut, ShortcutProgress};

verus! {

/// Everything the editor knows, in one value.
pub struct EditorState {
    /// The active mode.
    pub mode: EditorMode,
    /// The cursor's column.
    pub column: int,
    /// The cursor's row.
    pub row: int,
    /// The text, line by line.
    pub lines: Seq<Seq<char>>,
    /// The command typed so far.
    pub command: Seq<char>,
    /// The shortcut typed so far.
    pub shortcut: Seq<char>,
    /// Whether the editor has been told to quit.
    pub quit: bool,
}

impl EditorState {
    /// The state the editor starts in: visual mode, one empty line, the
    /// cursor at the origin, nothing typed.
    pub open spec fn initial() -> EditorState {
        EditorState {
            mode: EditorMode::Visual,
            column: 0,
            row: 0,
            lines: seq![Seq::<char>::empty()],
            command: Seq::<char>::empty(),
            shortcut: Seq::<char>::empty(),
            quit: false,
        }
    }

    /// The buffer has a line, and the cursor stands on one of its lines.
    pub open spec fn wf(self) -> bool {
        &&& self.lines.len() >= 1
        &&& 0 <= self.row < self.lines.len()
        &&& 0 <= self.column
    }

    /// The line the cursor stands on.
    pub open spec fn current_line(self) -> Seq<char> {
        self.lines[self.row]
    }

    /// The index of the last line.
    pub open spec fn last_row(self) -> int {
        self.lines.len() - 1
    }

    /// The rightmost column the cursor may take in visual mode: that of the
    /// last character of its line, or 0 on an empty line.
    pub open spec fn last_column(self) -> int {
        if self.current_line().len() == 0 {
            0
        } else {
            self.current_line().len() - 1
        }
    }

    /// The cursor's column brought back into its line, the place after the
    /// last character included.
    pub open spec fn column_in_line(self) -> int {
        if self.column <= self.current_line().len() {
            self.column
        } else {
            self.current_line().len() as int
        }
    }

    /// The cursor's column brought back onto a character of its line.
    pub open spec fn column_on_char(self) -> int {
        if self.column <= self.last_column() {
            self.column
        } else {
            self.last_column()
        }
    }

    /// Nothing typed is left over from another mode: the command is empty
    /// outside command mode, the shortcut is empty outside visual mode, and
    /// inside it is the beginning of some shortcut.
    pub open spec fn tidy(self) -> bool {
        &&& self.mode != EditorMode::Command ==> self.command == Seq::<char>::empty()
        &&& self.mode != EditorMode::Visual ==> self.shortcut == Seq::<char>::empty()
        &&& begins_shortcut(self.shortcut)
    }

    /// Insert mode begins where the cursor is.
    pub open spec fn enter_insert_mode(self) -> EditorState {
        EditorState { mode: EditorMode::Insert, ..self }
    }

    /// Insert mode begins one column to the right, whatever the line's
    /// length.
    pub open spec fn enter_insert_mode_next(self) -> EditorState {
        EditorState {
            mode: EditorMode::Insert,
            column: step_forward(self.column, usize::MAX as int),
            ..self
        }
    }

    /// An empty line opens below the cursor's and the cursor goes down onto
    /// it, in the column it was in.
    pub open spec fn open_line_below(self) -> EditorState {
        EditorState {
            lines: self.lines.insert(self.row + 1, Seq::<char>::empty()),
            row: self.row + 1,
            ..self
        }
    }

    /// Insert mode begins on a new line below the cursor's.
    pub open spec fn enter_insert_mode_in_new_line(self) -> EditorState {
        self.open_line_below().enter_insert_mode()
    }

    /// Visual mode begins. From insert mode, a cursor that stands just past
    /// the end of its line steps back onto the last character. From command
    /// mode, the command being typed is dropped. In visual mode nothing
    /// changes.
    pub open spec fn enter_visual_mode(self) -> EditorState {
        match self.mode {
            EditorMode::Visual => self,
            EditorMode::Insert => EditorState {
                mode: EditorMode::Visual,
                column: if self.column == self.current_line().len() {
                    step_back(self.column)
                } else {
                    self.column
                },
                ..self
            },
            EditorMode::Command => EditorState {
                mode: EditorMode::Visual,
                command: Seq::<char>::empty(),
                ..self
            },
        }
    }

    /// Command mode begins with an empty command.
    pub open spec fn enter_command_mode(self) -> EditorState {
        EditorState { mode: EditorMode::Command, command: Seq::<char>::empty(), ..self }
    }

    /// The cursor goes one column left, to column 0 at most.
    pub open spec fn move_cursor_left(self) -> EditorState {
        EditorState { column: step_back(self.column), ..self }
    }

    /// The cursor goes one column right, to the last character of its line
    /// at most.
    pub open spec fn move_cursor_right(self) -> EditorState {
        EditorState { column: step_forward(self.column, self.last_column()), ..self }
    }

    /// The cursor goes one row down, to the last line at most.
    pub open spec fn move_cursor_down(self) -> EditorState {
        EditorState { row: step_forward(self.row, self.last_row()), ..self }
    }

    /// The cursor goes one row up, to row 0 at most.
    pub open spec fn move_cursor_up(self) -> EditorState {
        EditorState { row: step_back(self.row), ..self }
    }

    /// The editor is told to quit.
    pub open spec fn request_quit(self) -> EditorState {
        EditorState { quit: true, ..self }
    }

    /// A character joins the command being typed.
    pub open spec fn enter_command_char(self, c: char) -> EditorState {
        EditorState { command: self.command.push(c), ..self }
    }

    /// The typed command is carried out: `q` tells the editor to quit, any
    /// other text does nothing.
    pub open spec fn dispatch_command(self) -> EditorState {
        match command_of(self.command) {
            Command::Quit => self.request_quit(),
            Command::Unknown => self,
        }
    }

    /// The typed command is committed: it is carried out and dropped, and
    /// visual mode begins with no shortcut being typed.
    pub open spec fn commit_command(self) -> EditorState {
        EditorState {
            mode: EditorMode::Visual,
            command: Seq::<char>::empty(),
            shortcut: Seq::<char>::empty(),
            ..self.dispatch_command()
        }
    }

    /// A character goes into the cursor's line at the cursor, or at the end
    /// of the line when the cursor stands past it, and the cursor goes one
    /// column right.
    pub open spec fn enter_char(self, c: char) -> EditorState {
        EditorState {
            lines: self.lines.update(self.row, line_with_char(self.current_line(), self.column, c)),
            column: step_forward(self.column, usize::MAX as int),
            ..self
        }
    }

    /// The cursor's line is taken out, unless it is the only one. A cursor
    /// left below the last line goes up onto it.
    pub open spec fn delete_line(self) -> EditorState {
        if self.lines.len() > 1 {
            EditorState {
                lines: self.lines.remove(self.row),
                row: if self.row < self.lines.len() - 1 {
                    self.row
                } else {
                    self.lines.len() - 2
                },
                ..self
            }
        } else {
            self
        }
    }

    /// The cursor goes to the first column of the first line.
    pub open spec fn move_to_begin(self) -> EditorState {
        EditorState { column: 0, row: 0, ..self }
    }

    /// The cursor goes to the first column of the last line.
    pub open spec fn move_to_end(self) -> EditorState {
        EditorState { column: 0, row: self.last_row(), ..self }
    }

    /// What a shortcut does to the state.
    pub open spec fn fire(self, shortcut: Shortcut) -> EditorState {
        match shortcut {
            Shortcut::MoveToBegin => self.move_to_begin(),
            Shortcut::MoveToEnd => self.move_to_end(),
            Shortcut::DeleteLine => self.delete_line(),
        }
    }

    /// The shortcut being typed is dropped.
    pub open spec fn clear_shortcut_buffer(self) -> EditorState {
        EditorState { shortcut: Seq::<char>::empty(), ..self }
    }

    /// A character joins the shortcut being typed. When the characters spell
    /// a shortcut, it fires and they are dropped; when no shortcut begins
    /// with them, they are dropped; else they are kept.
    pub open spec fn append_shortcut_char(self, c: char) -> EditorState {
        let typed = self.shortcut.push(c);
        match progress_of(typed) {
            ShortcutProgress::Fired(shortcut) => self.fire(shortcut).clear_shortcut_buffer(),
            ShortcutProgress::Pending => EditorState { shortcut: typed, ..self },
            ShortcutProgress::Dead => self.clear_shortcut_buffer(),
        }
    }

    /// Backspace: the cursor is brought back into its line, and the
    /// character before it goes. At the start of a line the line is joined
    /// to the one above and the cursor stands where the two meet.
    pub open spec fn backspace(self) -> EditorState {
        let position = position_after_delete_before(self.lines, self.row, self.column_in_line());
        EditorState {
            lines: lines_after_delete_before(self.lines, self.row, self.column_in_line()),
            column: position.0,
            row: position.1,
            ..self
        }
    }

    /// The character under the cursor goes, the cursor first brought back
    /// onto the last character if it stands past it. When the last character
    /// of the line went, the cursor steps left. On an empty line nothing
    /// changes.
    pub open spec fn remove_cursor_char(self) -> EditorState {
        if self.current_line().len() == 0 {
            self
        } else {
            EditorState {
                lines: self.lines.update(
                    self.row,
                    line_after_delete_at(self.current_line(), self.column_on_char()),
                ),
                column: column_after_delete_at(self.current_line(), self.column_on_char()),
                ..self
            }
        }
    }

    /// What `action` does, but for what it means to the shortcut being
    /// typed.
    pub open spec fn perform(self, action: Action) -> EditorState {
        match action {
            Action::EnterInsertMode => self.enter_insert_mode(),
            Action::EnterVisualMode => self.enter_visual_mode(),
            Action::EnterCommandMode => self.enter_command_mode(),
            Action::MoveCursorLeft => self.move_cursor_left(),
            Action::MoveCursorRight => self.move_cursor_right(),
            Action::MoveCursorDown => self.move_cursor_down(),
            Action::MoveCursorUp => self.move_cursor_up(),
            Action::Quit => self.request_quit(),
            Action::Unknown => self,
            Action::EnterCommandChar(c) => self.enter_command_char(c),
            Action::ExecuteCommand => self.commit_command(),
            Action::EnterChar(c) => self.enter_char(c),
            Action::NewLine => self.open_line_below(),
            Action::EnterInsertModeNext => self.enter_insert_mode_next(),
            Action::AppendShortcutChar(c) => self.append_shortcut_char(c),
            Action::ClearShortcutBuffer => self.clear_shortcut_buffer(),
            Action::BackspaceInInsertMode => self.backspace(),
            Action::EnterInsertModeInNewLine => self.enter_insert_mode_in_new_line(),
            Action::RemoveCursorChar => self.remove_cursor_char(),
        }
    }

    /// Whether the shortcut being typed outlives `action`. It outlives the
    /// typing of its own characters and the actions that do nothing; every
    /// other action drops it.
    pub open spec fn spares_shortcut(self, action: Action) -> bool {
        ||| action is AppendShortcutChar
        ||| action is Unknown
        ||| action is EnterVisualMode && self.mode == EditorMode::Visual
    }

    /// The state after `action`.
    pub open spec fn apply(self, action: Action) -> EditorState {
        if self.spares_shortcut(action) {
            self.perform(action)
        } else {
            self.perform(action).clear_shortcut_buffer()
        }
    }

    /// The state after `event`: the event is translated in the active mode
    /// and the action applied.
    pub open spec fn step(self, event: InputEvent) -> EditorState {
        self.apply(action_for(self.mode, event))
    }

    /// The state after a run of actions, the first applied first.
    pub open spec fn run(self, actions: Seq<Action>) -> EditorState
        decreases actions.len(),
    {
        if actions.len() == 0 {
            self
        } else {
            self.run(actions.drop_last()).apply(actions.last())
        }
    }

    /// The state after a run of events, the first handled first.
    pub open spec fn after(self, events: Seq<InputEvent>) -> EditorState
        decreases events.len(),
    {
        if events.len() == 0 {
            self
        } else {
            self.after(events.drop_last()).step(events.last())
        }
    }
}

/// No action leads out of the well-formed states: afterwards the buffer
/// still has a line and the cursor still stands on one of its lines.
pub proof fn lemma_apply_keeps_well_formed(state: EditorState, action: Action)
    requires
        state.wf(),
    ensures
        state.apply(action).wf(),
{
}

/// Every state the editor can reach from its initial state is well-formed:
/// the buffer has at least one line, and the cursor's row is the index of
/// one of its lines.
pub proof fn lemma_reachable_states_are_well_formed(actions: Seq<Action>)
    ensures
        EditorState::initial().run(actions).wf(),
        EditorState::initial().run(actions).lines.len() >= 1,
        0 <= EditorState::initial().run(actions).row < EditorState::initial().run(
            actions,
        ).lines.len(),
    decreases actions.len(),
{
    if actions.len() > 0 {
        lemma_reachable_states_are_well_formed(actions.drop_last());
        lemma_apply_keeps_well_formed(
            EditorState::initial().run(actions.drop_last()),
            actions.last(),
        );
    }
}

/// What holds of the initial state and of every state that events lead to
/// from it: the state is well-formed, and nothing typed is left over from
/// another mode.
pub proof fn lemma_events_keep_the_state_in_order(events: Seq<InputEvent>)
    ensures
        EditorState::initial().after(events).wf(),
        EditorState::initial().after(events).tidy(),
    decreases events.len(),
{
    let empty = Seq::<char>::empty();
    assert(empty =~= spelling(Shortcut::MoveToBegin).subrange(0, 0));
    if events.len() > 0 {
        let before = EditorState::initial().after(events.drop_last());
        lemma_events_keep_the_state_in_order(events.drop_last());
        lemma_step_keeps_the_state_in_order(before, events.last());
    }
}

/// One event takes a well-formed state with nothing left over from another
/// mode to another such state.
pub proof fn lemma_step_keeps_the_state_in_order(state: EditorState, event: InputEvent)
    requires
        state.wf(),
        state.tidy(),
    ensures
        state.step(event).wf(),
        state.step(event).tidy(),
{
    let empty = Seq::<char>::empty();
    assert(empty =~= spelling(Shortcut::MoveToBegin).subrange(0, 0));
    lemma_apply_keeps_well_formed(state, action_for(state.mode, event));
}

/// Entering visual mode in visual mode changes nothing: not the cursor, not
/// the buffer, not the shortcut being typed.
pub proof fn lemma_visual_mode_reentry_changes_nothing(state: EditorState)
    requires
        state.mode == EditorMode::Visual,
    ensures
        state.apply(Action::EnterVisualMode) == state,
{
}

/// The action that does nothing leaves the state as it is, and so does
/// every event to which the active mode gives no meaning.
pub proof fn lemma_unmapped_events_change_nothing(state: EditorState, event: InputEvent)
    requires
        !is_mapped(state.mode, event),
    ensures
        state.apply(Action::Unknown) == state,
        state.step(event) == state,
{
}

/// Committing a command tells the editor to quit exactly when the command
/// is `q`, or when it had been told so before. Whatever the command was,
/// visual mode begins, and the command and the shortcut being typed are
/// dropped; the buffer and the cursor stay as they are.
pub proof fn lemma_commit_returns_to_visual_mode(state: EditorState)
    ensures
        state.commit_command().quit == (state.quit || state.command == seq!['q']),
        state.commit_command().mode == EditorMode::Visual,
        state.commit_command().command == Seq::<char>::empty(),
        state.commit_command().shortcut == Seq::<char>::empty(),
        state.commit_command().lines == state.lines,
        state.commit_command().column == state.column,
        state.commit_command().row == state.row,
        state.commit_command() == state.apply(Action::ExecuteCommand),
{
}

/// Once the editor has been told to quit, no action takes that back.
pub proof fn lemma_quit_stays(state: EditorState, action: Action)
    requires
        state.quit,
    ensures
        state.apply(action).quit,
{
}

/// An event tells the editor to quit only as Enter in command mode, with
/// the command `q` typed.
pub proof fn lemma_only_the_quit_command_quits(state: EditorState, event: InputEvent)
    requires
        !state.quit,
        state.step(event).quit,
    ensures
        state.mode == EditorMode::Command,
        event == InputEvent::Key(Key::Enter),
        state.command == seq!['q'],
{
}

} // verus!
