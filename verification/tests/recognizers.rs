use modal_editor::command::{parse_command, Command};
use modal_editor::shortcut::{recognize, Shortcut, ShortcutProgress};

fn keys_of(text: &str) -> Vec<char> {
    text.chars().collect()
}

#[test]
fn recognize_fires_on_the_three_triggers() {
    assert_eq!(recognize(&keys_of("gg")), ShortcutProgress::Fired(Shortcut::MoveToBegin));
    assert_eq!(recognize(&keys_of("G")), ShortcutProgress::Fired(Shortcut::MoveToEnd));
    assert_eq!(recognize(&keys_of("dd")), ShortcutProgress::Fired(Shortcut::DeleteLine));
}

#[test]
fn recognize_waits_on_the_beginning_of_a_trigger() {
    assert_eq!(recognize(&keys_of("")), ShortcutProgress::Pending);
    assert_eq!(recognize(&keys_of("g")), ShortcutProgress::Pending);
    assert_eq!(recognize(&keys_of("d")), ShortcutProgress::Pending);
}

#[test]
fn recognize_gives_up_on_anything_else() {
    assert_eq!(recognize(&keys_of("z")), ShortcutProgress::Dead);
    assert_eq!(recognize(&keys_of("D")), ShortcutProgress::Dead);
    assert_eq!(recognize(&keys_of("gd")), ShortcutProgress::Dead);
    assert_eq!(recognize(&keys_of("dg")), ShortcutProgress::Dead);
    assert_eq!(recognize(&keys_of("gG")), ShortcutProgress::Dead);
    assert_eq!(recognize(&keys_of("GG")), ShortcutProgress::Dead);
    assert_eq!(recognize(&keys_of("ggg")), ShortcutProgress::Dead);
    assert_eq!(recognize(&keys_of("ddd")), ShortcutProgress::Dead);
    assert_eq!(recognize(&keys_of("xgg")), ShortcutProgress::Dead);
}

#[test]
fn parse_command_knows_quit() {
    assert_eq!(parse_command(&keys_of("q")), Command::Quit);
}

#[test]
fn parse_command_matches_the_whole_text_only() {
    assert_eq!(parse_command(&keys_of("")), Command::Unknown);
    assert_eq!(parse_command(&keys_of("z")), Command::Unknown);
    assert_eq!(parse_command(&keys_of("Q")), Command::Unknown);
    assert_eq!(parse_command(&keys_of("qq")), Command::Unknown);
    assert_eq!(parse_command(&keys_of(" q")), Command::Unknown);
    assert_eq!(parse_command(&keys_of("q ")), Command::Unknown);
    assert_eq!(parse_command(&keys_of("quit")), Command::Unknown);
}
