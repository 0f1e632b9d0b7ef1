use modal_editor::input::{
    handle_command_mode_event, handle_insert_mode_event, handle_visual_mode_event, translate,
    Action, EditorMode, InputEvent, Key,
};

fn key(key: Key) -> InputEvent {
    InputEvent::Key(key)
}

fn typed(c: char) -> InputEvent {
    InputEvent::Key(Key::Char(c))
}

#[test]
fn insert_mode_keys() {
    assert_eq!(handle_insert_mode_event(&key(Key::Esc)), Action::EnterVisualMode);
    assert_eq!(handle_insert_mode_event(&key(Key::Enter)), Action::NewLine);
    assert_eq!(handle_insert_mode_event(&key(Key::Backspace)), Action::BackspaceInInsertMode);
    assert_eq!(handle_insert_mode_event(&typed('a')), Action::EnterChar('a'));
    assert_eq!(handle_insert_mode_event(&typed('i')), Action::EnterChar('i'));
    assert_eq!(handle_insert_mode_event(&typed(':')), Action::EnterChar(':'));
    assert_eq!(handle_insert_mode_event(&typed('é')), Action::EnterChar('é'));
}

#[test]
fn insert_mode_passes_over_what_it_does_not_know() {
    assert_eq!(handle_insert_mode_event(&key(Key::Other)), Action::Unknown);
    assert_eq!(handle_insert_mode_event(&InputEvent::Other), Action::Unknown);
}

#[test]
fn visual_mode_letters_that_act_at_once() {
    assert_eq!(handle_visual_mode_event(&typed('i')), Action::EnterInsertMode);
    assert_eq!(handle_visual_mode_event(&typed('a')), Action::EnterInsertModeNext);
    assert_eq!(handle_visual_mode_event(&typed('o')), Action::EnterInsertModeInNewLine);
    assert_eq!(handle_visual_mode_event(&typed(':')), Action::EnterCommandMode);
    assert_eq!(handle_visual_mode_event(&typed('h')), Action::MoveCursorLeft);
    assert_eq!(handle_visual_mode_event(&typed('l')), Action::MoveCursorRight);
    assert_eq!(handle_visual_mode_event(&typed('j')), Action::MoveCursorDown);
    assert_eq!(handle_visual_mode_event(&typed('k')), Action::MoveCursorUp);
    assert_eq!(handle_visual_mode_event(&typed('x')), Action::RemoveCursorChar);
}

#[test]
fn visual_mode_sends_other_characters_to_the_shortcut() {
    assert_eq!(handle_visual_mode_event(&typed('g')), Action::AppendShortcutChar('g'));
    assert_eq!(handle_visual_mode_event(&typed('G')), Action::AppendShortcutChar('G'));
    assert_eq!(handle_visual_mode_event(&typed('d')), Action::AppendShortcutChar('d'));
    assert_eq!(handle_visual_mode_event(&typed('z')), Action::AppendShortcutChar('z'));
    assert_eq!(handle_visual_mode_event(&typed('I')), Action::AppendShortcutChar('I'));
}

#[test]
fn visual_mode_escape_clears_the_shortcut() {
    assert_eq!(handle_visual_mode_event(&key(Key::Esc)), Action::ClearShortcutBuffer);
}

#[test]
fn visual_mode_passes_over_what_it_does_not_know() {
    assert_eq!(handle_visual_mode_event(&key(Key::Enter)), Action::Unknown);
    assert_eq!(handle_visual_mode_event(&key(Key::Backspace)), Action::Unknown);
    assert_eq!(handle_visual_mode_event(&key(Key::Other)), Action::Unknown);
    assert_eq!(handle_visual_mode_event(&InputEvent::Other), Action::Unknown);
}

#[test]
fn command_mode_keys() {
    assert_eq!(handle_command_mode_event(&key(Key::Esc)), Action::EnterVisualMode);
    assert_eq!(handle_command_mode_event(&key(Key::Enter)), Action::ExecuteCommand);
    assert_eq!(handle_command_mode_event(&typed('q')), Action::EnterCommandChar('q'));
    assert_eq!(handle_command_mode_event(&typed(':')), Action::EnterCommandChar(':'));
}

#[test]
fn command_mode_passes_over_what_it_does_not_know() {
    assert_eq!(handle_command_mode_event(&key(Key::Backspace)), Action::Unknown);
    assert_eq!(handle_command_mode_event(&key(Key::Other)), Action::Unknown);
    assert_eq!(handle_command_mode_event(&InputEvent::Other), Action::Unknown);
}

#[test]
fn translate_goes_by_the_mode() {
    let events = [
        key(Key::Esc),
        key(Key::Enter),
        key(Key::Backspace),
        key(Key::Other),
        typed('i'),
        typed('g'),
        typed('x'),
        typed('q'),
        InputEvent::Other,
    ];
    for event in events.iter() {
        assert_eq!(translate(EditorMode::Insert, event), handle_insert_mode_event(event));
        assert_eq!(translate(EditorMode::Visual, event), handle_visual_mode_event(event));
        assert_eq!(translate(EditorMode::Command, event), handle_command_mode_event(event));
    }
}

#[test]
fn translate_gives_one_action_for_every_pair() {
    assert_eq!(translate(EditorMode::Insert, &key(Key::Esc)), Action::EnterVisualMode);
    assert_eq!(translate(EditorMode::Visual, &key(Key::Esc)), Action::ClearShortcutBuffer);
    assert_eq!(translate(EditorMode::Command, &key(Key::Esc)), Action::EnterVisualMode);
    assert_eq!(translate(EditorMode::Insert, &key(Key::Enter)), Action::NewLine);
    assert_eq!(translate(EditorMode::Visual, &key(Key::Enter)), Action::Unknown);
    assert_eq!(translate(EditorMode::Command, &key(Key::Enter)), Action::ExecuteCommand);
    assert_eq!(translate(EditorMode::Insert, &key(Key::Backspace)), Action::BackspaceInInsertMode);
    assert_eq!(translate(EditorMode::Visual, &key(Key::Backspace)), Action::Unknown);
    assert_eq!(translate(EditorMode::Command, &key(Key::Backspace)), Action::Unknown);
    assert_eq!(translate(EditorMode::Insert, &InputEvent::Other), Action::Unknown);
    assert_eq!(translate(EditorMode::Visual, &InputEvent::Other), Action::Unknown);
    assert_eq!(translate(EditorMode::Command, &InputEvent::Other), Action::Unknown);
}
