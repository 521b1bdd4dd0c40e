//! The text field of the wizard, and the keys that reach it.
//!
//! A key press is a `tui_textarea::Input`, a plain record that is read
//! here as it is. The field is a `tui_textarea::TextArea`. Nothing in
//! it is verified: what this file states of it is taken from that
//! crate's source.

use vstd::prelude::*;

verus! {

/// Makes `tui_textarea::Key`, the key of a key press, known with its
/// variants.
#[verifier::external_type_specification]
pub struct ExKey(tui_textarea::Key);

/// Makes `tui_textarea::Input`, a key press, known with its fields: the
/// key and the three modifier keys.
#[verifier::external_type_specification]
pub struct ExInput(tui_textarea::Input);

/// An editable text field. It owns the `tui_textarea::TextArea` that is
/// drawn on screen and that takes the key presses. What is inside is
/// not looked into: the field is spoken of through `field_lines`.
#[verifier::external_body]
pub struct TextField<'a> {
    pub area: tui_textarea::TextArea<'a>,
}

/// The lines of text that a field holds, top to bottom.
pub uninterp spec fn field_lines(field: TextField) -> Seq<Seq<char>>;

/// Whether the caret of a field stands behind the last character of
/// its last line, with nothing selected.
pub uninterp spec fn field_caret_at_end(field: TextField) -> bool;

/// The character that a key press types, if it types one: the
/// character of a character key pressed without Ctrl and Alt. A line
/// break is no such character.
pub open spec fn typed_char(input: tui_textarea::Input) -> Option<char> {
    match input.key {
        tui_textarea::Key::Char(c) => if !input.ctrl && !input.alt && c != '\n' && c != '\r' {
            Some(c)
        } else {
            None
        },
        _ => None,
    }
}

/// The lines with `c` put behind the last character of the last line.
pub open spec fn appended(lines: Seq<Seq<char>>, c: char) -> Seq<Seq<char>> {
    lines.update(lines.len() - 1, lines.last().push(c))
}

/// What the shell reads of a key press.
#[derive(Clone, Copy, Debug, PartialEq, Eq, Structural)]
pub enum KeyKind {
    Esc,
    Enter,
    Up,
    Down,
    Char(char),
    Other,
}

/// What the shell reads of `input`: its key, whatever modifier keys
/// were held with it.
pub open spec fn kind_of(input: tui_textarea::Input) -> KeyKind {
    match input.key {
        tui_textarea::Key::Esc => KeyKind::Esc,
        tui_textarea::Key::Enter => KeyKind::Enter,
        tui_textarea::Key::Up => KeyKind::Up,
        tui_textarea::Key::Down => KeyKind::Down,
        tui_textarea::Key::Char(c) => KeyKind::Char(c),
        _ => KeyKind::Other,
    }
}

/// What the shell reads of `input`.
pub fn key_kind(input: &tui_textarea::Input) -> (kind: KeyKind)
    ensures
        kind == kind_of(*input),
{
    match input.key {
        tui_textarea::Key::Esc => KeyKind::Esc,
        tui_textarea::Key::Enter => KeyKind::Enter,
        tui_textarea::Key::Up => KeyKind::Up,
        tui_textarea::Key::Down => KeyKind::Down,
        tui_textarea::Key::Char(c) => KeyKind::Char(c),
        _ => KeyKind::Other,
    }
}

impl<'a> TextField<'a> {
    /// Calls `TextArea::default`, which makes a text area of one empty
    /// line, with the caret at its start, which is its end, and nothing
    /// selected.
    #[verifier::external_body]
    pub(crate) fn new() -> (field: TextField<'a>)
        ensures
            field_lines(field) == seq![Seq::<char>::empty()],
            field_caret_at_end(field),
    {
        TextField { area: tui_textarea::TextArea::default() }
    }

    /// Calls `TextArea::lines` and copies the first of them. A text area
    /// always has a first line.
    #[verifier::external_body]
    pub(crate) fn first_line(&self) -> (line: String)
        ensures
            line@ == field_lines(*self)[0],
    {
        self.area.lines()[0].clone()
    }

    /// Calls `TextArea::input`, which edits the text as the key asks.
    ///
    /// One case is stated. A key press that types a character puts it
    /// where the caret stands and moves the caret behind it: with the
    /// caret at the end of the text and nothing selected, the character
    /// comes last in the last line, and the caret is at the end again.
    /// Of every other key press, and of every other place of the caret,
    /// nothing is claimed.
    #[verifier::external_body]
    pub(crate) fn input(&mut self, input: tui_textarea::Input)
        ensures
            match typed_char(input) {
                Some(c) => field_caret_at_end(*old(self)) && field_lines(*old(self)).len() > 0
                    ==> field_lines(*final(self)) == appended(field_lines(*old(self)), c)
                    && field_caret_at_end(*final(self)),
                None => true,
            },
    {
        self.area.input(input);
    }
}

} // verus!
