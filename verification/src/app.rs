//! The editor: the palette it holds, the mode it is in, and the name typed for
//! an export.

use vstd::prelude::*;
use crate::color::{Color, Constraints, Sample};
use crate::export::{export_file_name, export_text, render_export, render_file_name, Export};
use crate::input::{Action, Command, KeyCode, KeyEvent};
use crate::palette::Palette;
use crate::scroll::ScrollIndicator;

verus! {

/// What the editor is doing, and so what a key press means.
#[derive(Clone, Copy, Debug, PartialEq, Eq, Structural)]
pub enum Mode {
    /// Editing the palette.
    Generating,
    /// Showing the help screen.
    Help,
    /// Typing the name under which the palette is exported.
    Exporting,
}

/// The editor's state.
pub struct App {
    /// The name typed so far in export mode.
    pub input_buffer: String,
    mode: Mode,
    colors: Vec<Color>,
    selected: usize,
    scrollbar_state: ScrollIndicator,
    /// The ranges from which new colours are to be drawn.
    pub constraints: Constraints,
}

/// The editor's state as a mathematical value.
#[verifier::ext_equal]
pub struct AppView {
    pub palette: Palette,
    pub mode: Mode,
    pub input_buffer: Seq<char>,
    pub constraints: Constraints,
}

impl View for App {
    type V = AppView;

    closed spec fn view(&self) -> AppView {
        AppView {
            palette: Palette {
                entries: self.colors@,
                selected: self.selected as int,
                indicator: self.scrollbar_state@,
            },
            mode: self.mode,
            input_buffer: self.input_buffer@,
            constraints: self.constraints,
        }
    }
}

impl AppView {
    /// This state with another palette and all else as it was.
    pub open spec fn with_palette(self, palette: Palette) -> AppView {
        AppView {
            palette,
            mode: self.mode,
            input_buffer: self.input_buffer,
            constraints: self.constraints,
        }
    }

    /// This state in another mode and all else as it was.
    pub open spec fn with_mode(self, mode: Mode) -> AppView {
        AppView {
            palette: self.palette,
            mode,
            input_buffer: self.input_buffer,
            constraints: self.constraints,
        }
    }

    /// This state with another name typed and all else as it was.
    pub open spec fn with_input(self, input_buffer: Seq<char>) -> AppView {
        AppView {
            palette: self.palette,
            mode: self.mode,
            input_buffer,
            constraints: self.constraints,
        }
    }

    /// This state back in generating mode, with the typed name cleared.
    pub open spec fn reset_input(self) -> AppView {
        self.with_mode(Mode::Generating).with_input(Seq::empty())
    }

    /// The state after the write of an export: after one that succeeded the
    /// typed name is cleared and the mode is generating again, after one that
    /// failed nothing has changed.
    pub open spec fn after_export(self, written: bool) -> AppView {
        if written {
            self.reset_input()
        } else {
            self
        }
    }

    /// The state after a key press while the palette is edited. What needs a
    /// freshly drawn colour, the clipboard or the way out is left to the
    /// caller, and leaves the state as it is.
    pub open spec fn after_command(self, command: Command) -> AppView {
        match command {
            Command::ShiftDown => self.with_palette(self.palette.swap_down()),
            Command::ShiftUp => self.with_palette(self.palette.swap_up()),
            Command::SelectPrev => self.with_palette(self.palette.select_prev()),
            Command::SelectNext => self.with_palette(self.palette.select_next()),
            Command::Remove => self.with_palette(self.palette.remove()),
            Command::ToggleLock => self.with_palette(self.palette.toggle_lock()),
            Command::Help => self.with_mode(Mode::Help),
            Command::Export => self.with_mode(Mode::Exporting),
            Command::Quit | Command::Insert | Command::CopyHex | Command::Regenerate
            | Command::Nothing => self,
        }
    }

    /// The state after a key press while a name is typed: escape gives the
    /// name up, backspace takes its last character away, a character key adds
    /// to it. Enter asks for the export and changes nothing by itself.
    pub open spec fn after_typing(self, code: KeyCode) -> AppView {
        match code {
            KeyCode::Esc => self.reset_input(),
            KeyCode::Backspace => if self.input_buffer.len() > 0 {
                self.with_input(self.input_buffer.drop_last())
            } else {
                self
            },
            KeyCode::Char(ch) => self.with_input(self.input_buffer.push(ch)),
            _ => self,
        }
    }

    /// The state after a key press.
    pub open spec fn after_key(self, key: KeyEvent) -> AppView {
        match self.mode {
            Mode::Generating => self.after_command(key.command()),
            Mode::Help => if key.is_char('q') || key.is_char('?') {
                self.with_mode(Mode::Generating)
            } else {
                self
            },
            Mode::Exporting => self.after_typing(key.code),
        }
    }

    /// What a key press leaves for the caller to do.
    pub open spec fn action(self, key: KeyEvent) -> Action {
        match self.mode {
            Mode::Generating => match key.command() {
                Command::Quit => Action::Quit,
                Command::Insert => Action::Insert,
                Command::CopyHex => Action::CopyHex,
                Command::Regenerate => Action::Regenerate,
                _ => Action::Nothing,
            },
            Mode::Help => Action::Nothing,
            Mode::Exporting => if key.code == KeyCode::Enter {
                Action::Export
            } else {
                Action::Nothing
            },
        }
    }
}

impl App {
    /// The palette is never empty, the selection points at one of its entries,
    /// and the scroll indicator mirrors the selection.
    pub open spec fn wf(&self) -> bool {
        self@.palette.wf()
    }

    /// An editor in generating mode whose palette is the one colour `sample`.
    pub fn new(sample: Sample) -> (app: App)
        ensures
            app.wf(),
            app@ == (AppView {
                palette: Palette::single(sample),
                mode: Mode::Generating,
                input_buffer: Seq::empty(),
                constraints: Constraints::full(),
            }),
    {
        let mut colors: Vec<Color> = Vec::new();
        colors.push(Color::random_new(sample));
        App {
            input_buffer: String::new(),
            mode: Mode::Generating,
            colors,
            selected: 0,
            scrollbar_state: ScrollIndicator::new(1).position(0),
            constraints: Constraints::new(),
        }
    }

    /// The mode the editor is in.
    pub fn get_mode(&self) -> (mode: &Mode)
        ensures
            *mode == self@.mode,
    {
        &self.mode
    }

    /// Selects the entry below the selected one. From the last entry the
    /// selection wraps to the first.
    pub fn inc_select(&mut self)
        requires
            old(self).wf(),
        ensures
            final(self).wf(),
            final(self)@ == old(self)@.with_palette(old(self)@.palette.select_next()),
    {
        let entries: usize = self.colors.len();
        if self.selected < entries - 1 {
            self.selected = self.selected + 1;
            self.scrollbar_state.next();
        } else {
            self.selected = 0;
            self.scrollbar_state.first();
        }
    }

    /// Selects the entry above the selected one. From the first entry the
    /// selection wraps to the last.
    pub fn dec_select(&mut self)
        requires
            old(self).wf(),
        ensures
            final(self).wf(),
            final(self)@ == old(self)@.with_palette(old(self)@.palette.select_prev()),
    {
        let entries: usize = self.colors.len();
        if self.selected > 0 {
            self.selected = self.selected - 1;
            self.scrollbar_state.prev();
        } else {
            self.selected = entries - 1;
            self.scrollbar_state.last();
        }
    }

    /// Appends an unlocked entry for the freshly drawn `sample`. The selection
    /// stays where it is.
    pub fn insert_color(&mut self, sample: Sample)
        requires
            old(self).wf(),
        ensures
            final(self).wf(),
            final(self)@ == old(self)@.with_palette(old(self)@.palette.insert(sample)),
    {
        self.colors.push(Color::random_new(sample));
        self.scrollbar_state = self.scrollbar_state.content_length(self.colors.len());
    }

    /// Removes the selected entry, unless it is the only one: a palette is
    /// never empty. The selection keeps its index, except that after the
    /// removal of the last entry it moves onto the new last entry.
    pub fn remove_color(&mut self)
        requires
            old(self).wf(),
        ensures
            final(self).wf(),
            final(self)@ == old(self)@.with_palette(old(self)@.palette.remove()),
    {
        let entries: usize = self.colors.len();
        if entries > 1 {
            self.colors.remove(self.selected);
            self.scrollbar_state = self.scrollbar_state.content_length(self.colors.len());
            if self.selected == entries - 1 {
                self.selected = self.selected - 1;
                self.scrollbar_state.prev();
            }
        }
    }

    /// A copy of all entries, in display order.
    pub fn get_colors(&self) -> (colors: Vec<Color>)
        ensures
            colors@ == self@.palette.entries,
    {
        self.colors.clone()
    }

    /// Moves the selected entry one place up, and the selection with it. The
    /// first entry changes places with the last. Nothing happens in a palette
    /// of one entry.
    pub fn shift_up(&mut self)
        requires
            old(self).wf(),
        ensures
            final(self).wf(),
            final(self)@ == old(self)@.with_palette(old(self)@.palette.swap_up()),
    {
        let entries: usize = self.colors.len();
        if entries <= 1 {
            return ;
        }
        if self.selected == 0 {
            self.exchange(0, entries - 1);
            self.selected = entries - 1;
            self.scrollbar_state.last();
        } else {
            self.exchange(self.selected, self.selected - 1);
            self.selected = self.selected - 1;
            self.scrollbar_state.prev();
        }
    }

    /// Moves the selected entry one place down, and the selection with it. The
    /// last entry changes places with the first. Nothing happens in a palette
    /// of one entry.
    pub fn shift_down(&mut self)
        requires
            old(self).wf(),
        ensures
            final(self).wf(),
            final(self)@ == old(self)@.with_palette(old(self)@.palette.swap_down()),
    {
        let entries: usize = self.colors.len();
        if entries <= 1 {
            return ;
        }
        if self.selected < entries - 1 {
            self.exchange(self.selected, self.selected + 1);
            self.selected = self.selected + 1;
            self.scrollbar_state.next();
        } else {
            self.exchange(self.selected, 0);
            self.selected = 0;
            self.scrollbar_state.first();
        }
    }

    /// Exchanges the entries at `i` and `j`.
    fn exchange(&mut self, i: usize, j: usize)
        requires
            i < old(self).colors.len(),
            j < old(self).colors.len(),
        ensures
            final(self).colors@ == old(self)@.palette.exchanged(i as int, j as int),
            final(self).selected == old(self).selected,
            final(self).scrollbar_state == old(self).scrollbar_state,
            final(self).mode == old(self).mode,
            final(self).input_buffer == old(self).input_buffer,
            final(self).constraints == old(self).constraints,
    {
        let at_i: Color = self.colors[i];
        let at_j: Color = self.colors[j];
        self.colors[i] = at_j;
        self.colors[j] = at_i;
    }

    /// Locks the selected entry if it is unlocked, and unlocks it if it is
    /// locked.
    pub fn toggle_lock(&mut self)
        requires
            old(self).wf(),
        ensures
            final(self).wf(),
            final(self)@ == old(self)@.with_palette(old(self)@.palette.toggle_lock()),
    {
        let color: Color = self.colors[self.selected];
        self.colors[self.selected] = Color {
            okhsl: color.okhsl,
            srgb: color.srgb,
            locked: !color.locked,
        };
    }

    /// Gives every unlocked entry a new colour: entry `i` takes `samples[i]`.
    /// Locked entries, the order and the locks stay as they are. Hand in one
    /// sample for each entry; an unlocked entry for which there is none keeps
    /// its colour.
    pub fn regen_unlocked(&mut self, samples: &Vec<Sample>)
        requires
            old(self).wf(),
        ensures
            final(self).wf(),
            final(self)@ == old(self)@.with_palette(old(self)@.palette.regenerate(samples@)),
    {
        let ghost before = self@.palette;
        let entries: usize = self.colors.len();
        let mut i: usize = 0;
        while i < entries
            invariant
                i <= entries,
                entries == self.colors.len(),
                entries == before.entries.len(),
                self.selected == old(self).selected,
                self.scrollbar_state == old(self).scrollbar_state,
                self.mode == old(self).mode,
                self.input_buffer == old(self).input_buffer,
                self.constraints == old(self).constraints,
                before == old(self)@.palette,
                forall|k: int|
                    0 <= k < i ==> self.colors@[k] == before.regenerated_entry(samples@, k),
                forall|k: int| i <= k < entries ==> self.colors@[k] == before.entries[k],
            decreases entries - i,
        {
            let color: Color = self.colors[i];
            if !color.locked && i < samples.len() {
                let mut fresh: Color = color;
                fresh.regen(samples[i]);
                self.colors[i] = fresh;
            }
            i = i + 1;
        }
    }

    /// The hex text of the selected entry, as it goes to the clipboard.
    pub fn copy_hex(&self) -> (hex: String)
        requires
            self.wf(),
        ensures
            hex@ == crate::color::hex_text(self@.palette.entries[self@.palette.selected].srgb),
    {
        self.colors[self.selected].hex_string()
    }

    /// The table cursor: the index of the selected entry.
    pub fn get_table_state(&self) -> (selected: usize)
        ensures
            selected == self@.palette.selected,
    {
        self.selected
    }

    /// The scroll indicator.
    pub fn get_scrollbar_state(&self) -> (indicator: ScrollIndicator)
        ensures
            indicator@ == self@.palette.indicator,
    {
        self.scrollbar_state
    }

    /// Applies one key press. What the editor can do by itself it does; for
    /// the rest it returns the action that the caller is to carry out.
    pub fn handle_input(&mut self, key: KeyEvent) -> (action: Action)
        requires
            old(self).wf(),
        ensures
            final(self).wf(),
            final(self)@ == old(self)@.after_key(key),
            action == old(self)@.action(key),
    {
        match self.mode {
            Mode::Generating => {
                match key.to_command() {
                    Command::Quit => {
                        return Action::Quit;
                    },
                    Command::ShiftDown => self.shift_down(),
                    Command::ShiftUp => self.shift_up(),
                    Command::SelectPrev => self.dec_select(),
                    Command::SelectNext => self.inc_select(),
                    Command::Insert => {
                        return Action::Insert;
                    },
                    Command::Remove => self.remove_color(),
                    Command::ToggleLock => self.toggle_lock(),
                    Command::CopyHex => {
                        return Action::CopyHex;
                    },
                    Command::Help => {
                        self.mode = Mode::Help;
                    },
                    Command::Export => {
                        self.mode = Mode::Exporting;
                    },
                    Command::Regenerate => {
                        return Action::Regenerate;
                    },
                    Command::Nothing => {},
                }
            },
            Mode::Help => {
                match key.code {
                    KeyCode::Char(c) => {
                        if c == 'q' || c == '?' {
                            self.mode = Mode::Generating;
                        }
                    },
                    _ => {},
                }
            },
            Mode::Exporting => {
                match key.code {
                    KeyCode::Esc => {
                        self.input_buffer = String::new();
                        self.mode = Mode::Generating;
                    },
                    KeyCode::Backspace => {
                        self.input_buffer.pop();
                    },
                    KeyCode::Enter => {
                        return Action::Export;
                    },
                    KeyCode::Char(ch) => {
                        self.input_buffer.push(ch);
                    },
                    _ => {},
                }
            },
        }
        Action::Nothing
    }

    /// What an export of the palette writes: one line for each entry, in
    /// display order, into the file named after the typed name.
    pub fn export_to_sh(&self) -> (export: Export)
        ensures
            export.file_name@ == export_file_name(self@.input_buffer),
            export.content@ == export_text(self@.palette.entries),
    {
        Export {
            file_name: render_file_name(&self.input_buffer),
            content: render_export(&self.colors),
        }
    }

    /// Takes note of how the write of an export ended. After a write that
    /// succeeded the typed name is cleared and the editor is back in
    /// generating mode. After one that failed nothing changes: the name is
    /// kept, so that the export can be tried again.
    pub fn export_finished(&mut self, written: bool)
        ensures
            final(self)@ == old(self)@.after_export(written),
    {
        if written {
            self.input_buffer = String::new();
            self.mode = Mode::Generating;
        }
    }
}

} // verus!
