//! The mathematical model of the palette: an ordered sequence of entries, the
//! index of the selected one, and the scroll indicator that follows it.
//!
//! Every operation of the editor is first written here, as a function from
//! palette to palette. The executable editor is then proved to do exactly
//! this, and the laws of the palette are proved about these functions.

use vstd::prelude::*;
use crate::color::{Color, Sample};
use crate::scroll::Indicator;

verus! {

/// A palette: its entries in display order, the selection, and the indicator.
#[verifier::ext_equal]
pub struct Palette {
    pub entries: Seq<Color>,
    pub selected: int,
    pub indicator: Indicator,
}

impl Palette {
    /// The selection points at an entry. In particular there is an entry.
    pub open spec fn selection_valid(self) -> bool {
        0 <= self.selected < self.entries.len()
    }

    /// The indicator stands where the selection stands, over content as long
    /// as the palette.
    pub open spec fn indicator_mirrors(self) -> bool {
        &&& self.indicator.position == self.selected
        &&& self.indicator.content_length == self.entries.len()
    }

    /// What holds of a palette between any two operations.
    pub open spec fn wf(self) -> bool {
        &&& self.selection_valid()
        &&& self.indicator_mirrors()
    }

    /// The index of the last entry.
    pub open spec fn last_index(self) -> int {
        self.entries.len() - 1
    }

    /// The palette of one unlocked entry, which is selected.
    pub open spec fn single(sample: Sample) -> Palette {
        Palette {
            entries: seq![Color::unlocked(sample)],
            selected: 0,
            indicator: Indicator { content_length: 1, position: 0 },
        }
    }

    /// Selects the entry below, or the first one from the last.
    pub open spec fn select_next(self) -> Palette {
        if self.selected < self.last_index() {
            Palette {
                entries: self.entries,
                selected: self.selected + 1,
                indicator: self.indicator.advanced(),
            }
        } else {
            Palette { entries: self.entries, selected: 0, indicator: self.indicator.at_first() }
        }
    }

    /// Selects the entry above, or the last one from the first.
    pub open spec fn select_prev(self) -> Palette {
        if self.selected > 0 {
            Palette {
                entries: self.entries,
                selected: self.selected - 1,
                indicator: self.indicator.retreated(),
            }
        } else {
            Palette {
                entries: self.entries,
                selected: self.last_index(),
                indicator: self.indicator.at_last(),
            }
        }
    }

    /// Appends an unlocked entry for `sample`. The selection stays.
    pub open spec fn insert(self, sample: Sample) -> Palette {
        Palette {
            entries: self.entries.push(Color::unlocked(sample)),
            selected: self.selected,
            indicator: self.indicator.resized(self.entries.len() as int + 1),
        }
    }

    /// Removes the selected entry, unless it is the only one. The selection
    /// keeps its index, and so moves to the entry that followed; where the last
    /// entry was removed it steps back onto the new last entry.
    pub open spec fn remove(self) -> Palette {
        if self.entries.len() <= 1 {
            self
        } else {
            let entries = self.entries.remove(self.selected);
            let indicator = self.indicator.resized(entries.len() as int);
            if self.selected == entries.len() {
                Palette { entries, selected: self.selected - 1, indicator: indicator.retreated() }
            } else {
                Palette { entries, selected: self.selected, indicator }
            }
        }
    }

    /// The entries with those at `i` and `j` exchanged.
    pub open spec fn exchanged(self, i: int, j: int) -> Seq<Color> {
        self.entries.update(i, self.entries[j]).update(j, self.entries[i])
    }

    /// Moves the selected entry one place up and the selection with it. From
    /// the first place it changes places with the last entry. A palette of one
    /// entry stays as it is.
    pub open spec fn swap_up(self) -> Palette {
        if self.entries.len() <= 1 {
            self
        } else if self.selected == 0 {
            Palette {
                entries: self.exchanged(0, self.last_index()),
                selected: self.last_index(),
                indicator: self.indicator.at_last(),
            }
        } else {
            Palette {
                entries: self.exchanged(self.selected, self.selected - 1),
                selected: self.selected - 1,
                indicator: self.indicator.retreated(),
            }
        }
    }

    /// Moves the selected entry one place down and the selection with it. From
    /// the last place it changes places with the first entry. A palette of one
    /// entry stays as it is.
    pub open spec fn swap_down(self) -> Palette {
        if self.entries.len() <= 1 {
            self
        } else if self.selected < self.last_index() {
            Palette {
                entries: self.exchanged(self.selected, self.selected + 1),
                selected: self.selected + 1,
                indicator: self.indicator.advanced(),
            }
        } else {
            Palette {
                entries: self.exchanged(self.selected, 0),
                selected: 0,
                indicator: self.indicator.at_first(),
            }
        }
    }

    /// Flips the lock of the selected entry.
    pub open spec fn toggle_lock(self) -> Palette {
        Palette {
            entries: self.entries.update(self.selected, self.entries[self.selected].toggled()),
            selected: self.selected,
            indicator: self.indicator,
        }
    }

    /// The entry at `i` after a regeneration with `samples`: an unlocked entry
    /// takes the sample of its own index, where there is one.
    pub open spec fn regenerated_entry(self, samples: Seq<Sample>, i: int) -> Color {
        if !self.entries[i].locked && i < samples.len() {
            self.entries[i].recolored(samples[i])
        } else {
            self.entries[i]
        }
    }

    /// Gives every unlocked entry a new colour. Entry `i` takes `samples[i]`.
    pub open spec fn regenerate(self, samples: Seq<Sample>) -> Palette {
        Palette {
            entries: Seq::new(
                self.entries.len(),
                |i: int| self.regenerated_entry(samples, i),
            ),
            selected: self.selected,
            indicator: self.indicator,
        }
    }
}

} // verus!
