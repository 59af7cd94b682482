//! The scroll indicator: a second cursor, kept beside the selection, that tells
//! a renderer how long the content is and where in it the viewport stands.

use vstd::prelude::*;

verus! {

/// Position and content length of a scrollbar.
///
/// The indicator knows nothing of the palette. Its moves clamp instead of
/// wrapping: `next` stops at the last position and `prev` stops at the first.
#[derive(Clone, Copy, Debug, PartialEq, Eq, Structural)]
pub struct ScrollIndicator {
    /// The total length of the scrollable content.
    pub content_length: usize,
    /// The current position within the content.
    pub position: usize,
}

/// A scroll indicator as a mathematical value, free of machine bounds.
pub struct Indicator {
    pub content_length: int,
    pub position: int,
}

impl View for ScrollIndicator {
    type V = Indicator;

    open spec fn view(&self) -> Indicator {
        Indicator { content_length: self.content_length as int, position: self.position as int }
    }
}

impl Indicator {
    /// The last position of the content, or 0 where there is no content.
    pub open spec fn end(self) -> int {
        if self.content_length <= 0 {
            0
        } else {
            self.content_length - 1
        }
    }

    /// The indicator moved to the first position.
    pub open spec fn at_first(self) -> Indicator {
        Indicator { content_length: self.content_length, position: 0 }
    }

    /// The indicator moved to the last position.
    pub open spec fn at_last(self) -> Indicator {
        Indicator { content_length: self.content_length, position: self.end() }
    }

    /// The indicator moved one position forward, but not past the last one.
    pub open spec fn advanced(self) -> Indicator {
        Indicator {
            content_length: self.content_length,
            position: if self.position < self.end() {
                self.position + 1
            } else {
                self.end()
            },
        }
    }

    /// The indicator moved one position back, but not before the first one.
    pub open spec fn retreated(self) -> Indicator {
        Indicator {
            content_length: self.content_length,
            position: if self.position <= 0 {
                0
            } else {
                self.position - 1
            },
        }
    }

    /// The indicator with another content length and its position as it was.
    pub open spec fn resized(self, content_length: int) -> Indicator {
        Indicator { content_length, position: self.position }
    }
}

impl ScrollIndicator {
    /// An indicator at the first position of content of the given length.
    pub fn new(content_length: usize) -> (indicator: Self)
        ensures
            indicator@ == (Indicator { content_length: content_length as int, position: 0 }),
    {
        ScrollIndicator { content_length, position: 0 }
    }

    /// Sets the position. It is taken as given, also where it lies past the
    /// content.
    pub fn position(self, position: usize) -> (indicator: Self)
        ensures
            indicator@ == (Indicator {
                content_length: self@.content_length,
                position: position as int,
            }),
    {
        ScrollIndicator { content_length: self.content_length, position }
    }

    /// Sets the content length. The position stays where it was.
    pub fn content_length(self, content_length: usize) -> (indicator: Self)
        ensures
            indicator@ == self@.resized(content_length as int),
    {
        ScrollIndicator { content_length, position: self.position }
    }

    /// Moves to the first position.
    pub fn first(&mut self)
        ensures
            final(self)@ == old(self)@.at_first(),
    {
        self.position = 0;
    }

    /// Moves to the last position.
    pub fn last(&mut self)
        ensures
            final(self)@ == old(self)@.at_last(),
    {
        self.position = self.content_length.saturating_sub(1);
    }

    /// Moves one position forward and stops at the last one.
    pub fn next(&mut self)
        ensures
            final(self)@ == old(self)@.advanced(),
    {
        let end: usize = self.content_length.saturating_sub(1);
        if self.position < end {
            self.position = self.position + 1;
        } else {
            self.position = end;
        }
    }

    /// Moves one position back and stops at the first one.
    pub fn prev(&mut self)
        ensures
            final(self)@ == old(self)@.retreated(),
    {
        self.position = self.position.saturating_sub(1);
    }
}

} // verus!
