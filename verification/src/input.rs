//! Key presses, and what they ask for.

use vstd::prelude::*;

verus! {

/// The modifier set of a key pressed with shift and nothing else.
pub const SHIFT: u8 = 1;

/// The key of a key press, as far as the editor tells keys apart.
#[derive(Clone, Copy, Debug, PartialEq, Eq, Structural)]
pub enum KeyCode {
    Char(char),
    Up,
    Down,
    Enter,
    Esc,
    Backspace,
    /// Any other key.
    Other,
}

/// One key press.
#[derive(Clone, Copy, Debug, PartialEq, Eq, Structural)]
pub struct KeyEvent {
    pub code: KeyCode,
    /// The modifiers held, one bit each: shift is bit 0, control bit 1, alt
    /// bit 2, super bit 3, hyper bit 4 and meta bit 5.
    pub modifiers: u8,
}

/// What a key press asks for while the palette is edited.
#[derive(Clone, Copy, Debug, PartialEq, Eq, Structural)]
pub enum Command {
    Quit,
    ShiftDown,
    ShiftUp,
    SelectPrev,
    SelectNext,
    Insert,
    Remove,
    ToggleLock,
    CopyHex,
    Help,
    Export,
    Regenerate,
    Nothing,
}

/// What is left for the caller to do after a key press. The editor itself
/// neither draws random colours nor touches the clipboard or the file system.
#[derive(Clone, Copy, Debug, PartialEq, Eq, Structural)]
pub enum Action {
    /// Nothing: the key press was handled in full, or means nothing here.
    Nothing,
    /// Leave the editor.
    Quit,
    /// Draw one colour and hand it to `insert_color`.
    Insert,
    /// Draw one colour for each entry and hand them to `regen_unlocked`.
    Regenerate,
    /// Put the text of `copy_hex` on the clipboard.
    CopyHex,
    /// Write what `export_to_sh` returns, and report to `export_finished`
    /// whether that succeeded.
    Export,
}

impl KeyEvent {
    /// The key is `c`, whatever the modifiers.
    pub open spec fn is_char(self, c: char) -> bool {
        self.code == KeyCode::Char(c)
    }

    /// What the key press asks for while the palette is edited. Where a key
    /// press fits several lines, the first one counts: shift with an arrow
    /// moves the entry, an arrow with anything else moves the selection.
    pub open spec fn command(self) -> Command {
        if self.is_char('q') {
            Command::Quit
        } else if (self.code == KeyCode::Down && self.modifiers == SHIFT) || self.is_char('J') {
            Command::ShiftDown
        } else if (self.code == KeyCode::Up && self.modifiers == SHIFT) || self.is_char('K') {
            Command::ShiftUp
        } else if self.code == KeyCode::Up || self.is_char('k') {
            Command::SelectPrev
        } else if self.code == KeyCode::Down || self.is_char('j') {
            Command::SelectNext
        } else if self.is_char('a') {
            Command::Insert
        } else if self.is_char('d') {
            Command::Remove
        } else if self.is_char('s') {
            Command::ToggleLock
        } else if self.is_char('c') {
            Command::CopyHex
        } else if self.is_char('?') {
            Command::Help
        } else if self.is_char('e') {
            Command::Export
        } else if self.is_char(' ') {
            Command::Regenerate
        } else {
            Command::Nothing
        }
    }

    /// What the key press asks for while the palette is edited.
    pub fn to_command(&self) -> (command: Command)
        ensures
            command == self.command(),
    {
        match self.code {
            KeyCode::Down => {
                if self.modifiers == SHIFT {
                    Command::ShiftDown
                } else {
                    Command::SelectNext
                }
            },
            KeyCode::Up => {
                if self.modifiers == SHIFT {
                    Command::ShiftUp
                } else {
                    Command::SelectPrev
                }
            },
            KeyCode::Char(c) => {
                if c == 'q' {
                    Command::Quit
                } else if c == 'J' {
                    Command::ShiftDown
                } else if c == 'K' {
                    Command::ShiftUp
                } else if c == 'k' {
                    Command::SelectPrev
                } else if c == 'j' {
                    Command::SelectNext
                } else if c == 'a' {
                    Command::Insert
                } else if c == 'd' {
                    Command::Remove
                } else if c == 's' {
                    Command::ToggleLock
                } else if c == 'c' {
                    Command::CopyHex
                } else if c == '?' {
                    Command::Help
                } else if c == 'e' {
                    Command::Export
                } else if c == ' ' {
                    Command::Regenerate
                } else {
                    Command::Nothing
                }
            },
            _ => Command::Nothing,
        }
    }
}

} // verus!
