//! The shortcut recognizer: it watches the characters typed in visual mode
//! and says when they spell one of the shortcuts of several keys.

use vstd::prelude::*;

verus! {

/// What a shortcut does.
#[derive(Clone, Copy, Debug, PartialEq, Eq, Structural)]
pub enum Shortcut {
    /// `gg`: go to the first column of the first line.
    MoveToBegin,
    /// `G`: go to the first column of the last line.
    MoveToEnd,
    /// `dd`: take out the cursor's line.
    DeleteLine,
}

/// How far the typed characters have come towards a shortcut.
#[derive(Clone, Copy, Debug, PartialEq, Eq, Structural)]
pub enum ShortcutProgress {
    /// The characters spell this shortcut.
    Fired(Shortcut),
    /// The characters begin a shortcut and more are needed.
    Pending,
    /// No shortcut begins with the characters.
    Dead,
}

/// The characters that spell `shortcut`.
pub open spec fn spelling(shortcut: Shortcut) -> Seq<char> {
    match shortcut {
        Shortcut::MoveToBegin => seq!['g', 'g'],
        Shortcut::MoveToEnd => seq!['G'],
        Shortcut::DeleteLine => seq!['d', 'd'],
    }
}

/// Whether `keys` is the beginning of `whole` and shorter than it.
pub open spec fn is_proper_prefix(keys: Seq<char>, whole: Seq<char>) -> bool {
    keys.len() < whole.len() && keys == whole.subrange(0, keys.len() as int)
}

/// Whether some shortcut begins with `keys` and goes on.
pub open spec fn begins_shortcut(keys: Seq<char>) -> bool {
    ||| is_proper_prefix(keys, spelling(Shortcut::MoveToBegin))
    ||| is_proper_prefix(keys, spelling(Shortcut::MoveToEnd))
    ||| is_proper_prefix(keys, spelling(Shortcut::DeleteLine))
}

/// The progress that `keys` stand for: a shortcut fires when `keys` is
/// exactly its spelling; else `keys` is pending while some spelling begins
/// with it and goes on, and dead otherwise.
pub open spec fn progress_of(keys: Seq<char>) -> ShortcutProgress {
    if keys == spelling(Shortcut::MoveToBegin) {
        ShortcutProgress::Fired(Shortcut::MoveToBegin)
    } else if keys == spelling(Shortcut::MoveToEnd) {
        ShortcutProgress::Fired(Shortcut::MoveToEnd)
    } else if keys == spelling(Shortcut::DeleteLine) {
        ShortcutProgress::Fired(Shortcut::DeleteLine)
    } else if begins_shortcut(keys) {
        ShortcutProgress::Pending
    } else {
        ShortcutProgress::Dead
    }
}

/// Compares the typed characters with the spellings of the shortcuts.
pub fn recognize(keys: &Vec<char>) -> (progress: ShortcutProgress)
    ensures
        progress == progress_of(keys@),
{
    let ghost begin = spelling(Shortcut::MoveToBegin);
    let ghost end = spelling(Shortcut::MoveToEnd);
    let ghost delete = spelling(Shortcut::DeleteLine);
    assert(begin.len() == 2 && begin[0] == 'g' && begin[1] == 'g');
    assert(end.len() == 1 && end[0] == 'G');
    assert(delete.len() == 2 && delete[0] == 'd' && delete[1] == 'd');
    let count = keys.len();
    if count == 0 {
        assert(keys@ =~= begin.subrange(0, 0));
        ShortcutProgress::Pending
    } else if count == 1 {
        let first = keys[0];
        assert(begin.subrange(0, 1)[0] == 'g');
        assert(delete.subrange(0, 1)[0] == 'd');
        if first == 'G' {
            assert(keys@ =~= end);
            ShortcutProgress::Fired(Shortcut::MoveToEnd)
        } else if first == 'g' {
            assert(keys@ =~= begin.subrange(0, 1));
            ShortcutProgress::Pending
        } else if first == 'd' {
            assert(keys@ =~= delete.subrange(0, 1));
            ShortcutProgress::Pending
        } else {
            ShortcutProgress::Dead
        }
    } else if count == 2 {
        let first = keys[0];
        let second = keys[1];
        if first == 'g' && second == 'g' {
            assert(keys@ =~= begin);
            ShortcutProgress::Fired(Shortcut::MoveToBegin)
        } else if first == 'd' && second == 'd' {
            assert(keys@ =~= delete);
            ShortcutProgress::Fired(Shortcut::DeleteLine)
        } else {
            ShortcutProgress::Dead
        }
    } else {
        ShortcutProgress::Dead
    }
}

} // verus!
