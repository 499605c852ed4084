//! The line in which the search is typed.
use vstd::prelude::*;
use crate::keys::KeyCode;
use crossterm::event::{Event, KeyCode as TerminalKey, KeyEvent, KeyModifiers};
use tui_input::backend::crossterm::EventHandler;
use tui_input::Input;

verus! {

/// A line of text and a position in it, counted in characters.
#[derive(Debug)]
pub struct SearchInput {
    pub value: String,
    pub cursor: usize,
}

/// What `tui_input::Input::handle_event` makes of a line and its cursor when a key
/// is pressed with the given modifiers.
pub uninterp spec fn edited(
    value: Seq<char>,
    cursor: usize,
    code: KeyCode,
    modifiers: u8,
) -> (Seq<char>, usize);

/// What the keys with a simple binding make of a line: a character without a
/// modifier or with shift is inserted at the cursor; the keys that erase or move
/// by one character, or to an end of the line, do so without a modifier; keys that
/// have no binding change nothing.
pub open spec fn plain_edit(
    value: Seq<char>,
    cursor: usize,
    code: KeyCode,
    modifiers: u8,
    new_value: Seq<char>,
    new_cursor: usize,
) -> bool {
    let plain = modifiers == 0;
    let kept = new_value == value;
    match code {
        KeyCode::Char(c) => plain || modifiers == 1 ==> new_value == value.insert(cursor as int, c)
            && new_cursor == cursor + 1,
        KeyCode::Backspace => plain ==> if cursor == 0 {
            kept && new_cursor == 0
        } else {
            new_value == value.remove(cursor - 1) && new_cursor == cursor - 1
        },
        KeyCode::Delete => plain ==> new_cursor == cursor && if cursor == value.len() {
            kept
        } else {
            new_value == value.remove(cursor as int)
        },
        KeyCode::Left => plain ==> kept && new_cursor == if cursor == 0 {
            0
        } else {
            cursor - 1
        },
        KeyCode::Right => plain ==> kept && new_cursor == if cursor == value.len() {
            cursor as int
        } else {
            cursor + 1
        },
        KeyCode::Home => plain ==> kept && new_cursor == 0,
        KeyCode::End => plain ==> kept && new_cursor == value.len(),
        KeyCode::Enter | KeyCode::Up | KeyCode::Down | KeyCode::Tab | KeyCode::Esc
        | KeyCode::Other => kept && new_cursor == cursor,
    }
}

/// Edits a line with `tui_input::Input::handle_event`, through its handler for
/// `crossterm` events. The result depends on the line, the cursor and the key
/// alone, the cursor stays within the line, and the keys with a simple binding do
/// what `plain_edit` says. What the bindings with other modifiers do (by words, to
/// the end, the whole line) is not said here beyond its name. `Other` is handed over
/// as the null key, which has no binding, like the keys that it stands for.
#[verifier::external_body]
fn handle_event(value: &str, cursor: usize, code: KeyCode, modifiers: u8) -> (line: (String, usize))
    requires
        cursor <= value@.len(),
    ensures
        (line.0@, line.1) == edited(value@, cursor, code, modifiers),
        line.1 <= line.0@.len(),
        plain_edit(value@, cursor, code, modifiers, line.0@, line.1),
{
    let code = match code {
        KeyCode::Backspace => TerminalKey::Backspace, KeyCode::Enter => TerminalKey::Enter,
        KeyCode::Left => TerminalKey::Left, KeyCode::Right => TerminalKey::Right,
        KeyCode::Up => TerminalKey::Up, KeyCode::Down => TerminalKey::Down,
        KeyCode::Home => TerminalKey::Home, KeyCode::End => TerminalKey::End,
        KeyCode::Tab => TerminalKey::Tab, KeyCode::Delete => TerminalKey::Delete,
        KeyCode::Char(c) => TerminalKey::Char(c), KeyCode::Esc => TerminalKey::Esc,
        KeyCode::Other => TerminalKey::Null,
    };
    let key = KeyEvent::new(code, KeyModifiers::from_bits_truncate(modifiers));
    let mut input = Input::new(value.to_string()).with_cursor(cursor);
    input.handle_event(&Event::Key(key));
    (input.value().to_string(), input.cursor())
}

impl SearchInput {
    /// The cursor lies within the line.
    pub open spec fn wf(self) -> bool {
        self.cursor <= self.value@.len()
    }

    /// An empty line.
    pub fn new() -> (input: SearchInput)
        ensures
            input.wf(),
            input.value@ == Seq::<char>::empty(),
            input.cursor == 0,
    {
        SearchInput { value: String::new(), cursor: 0 }
    }

    /// Empties the line.
    pub fn reset(&mut self)
        ensures
            final(self).wf(),
            final(self).value@ == Seq::<char>::empty(),
            final(self).cursor == 0,
    {
        self.value = String::new();
        self.cursor = 0;
    }

    /// Edits the line as the pressed key says.
    pub fn press(&mut self, code: KeyCode, modifiers: u8)
        requires
            old(self).wf(),
        ensures
            final(self).wf(),
            (final(self).value@, final(self).cursor) == edited(
                old(self).value@,
                old(self).cursor,
                code,
                modifiers,
            ),
            plain_edit(
                old(self).value@,
                old(self).cursor,
                code,
                modifiers,
                final(self).value@,
                final(self).cursor,
            ),
    {
        let (value, cursor) = handle_event(self.value.as_str(), self.cursor, code, modifiers);
        self.value = value;
        self.cursor = cursor;
    }
}

} // verus!
