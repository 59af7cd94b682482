//! A slider: a thumb on a track, with a label and the styles it is drawn in.

use vstd::prelude::*;
use ratatui::style::Style;

verus! {

/// ratatui's `Style`. The slider keeps styles and hands them back; it never
/// looks into one.
#[verifier::external_type_specification]
#[verifier::external_body]
pub struct ExStyle(Style);

/// ratatui's default `Style`, the one that sets nothing. Nothing is claimed of
/// it: contracts speak of it as a result of this call.
pub assume_specification[ <Style as Default>::default ]() -> (style: Style);

/// `style` is ratatui's default style.
pub open spec fn is_default_style(style: Style) -> bool {
    call_ensures(<Style as Default>::default, (), style)
}

/// Where the thumb of a slider stands, within which range.
#[derive(Debug, PartialEq, Clone, Copy)]
pub struct SliderState {
    position: u16,
    lower: u16,
    upper: u16,
}

/// A slider state as a mathematical value.
pub struct SliderStateView {
    pub position: int,
    pub lower: int,
    pub upper: int,
}

impl SliderStateView {
    /// The state with the thumb one step up, unless the thumb is at or past
    /// the last position of the range, `upper - 1`.
    pub open spec fn incremented(self) -> SliderStateView {
        SliderStateView {
            position: if self.position < self.upper - 1 {
                self.position + 1
            } else {
                self.position
            },
            lower: self.lower,
            upper: self.upper,
        }
    }

    /// The state with the thumb one step down, unless the thumb is at 0.
    pub open spec fn decremented(self) -> SliderStateView {
        SliderStateView {
            position: if self.position > 0 {
                self.position - 1
            } else {
                0
            },
            lower: self.lower,
            upper: self.upper,
        }
    }
}

impl View for SliderState {
    type V = SliderStateView;

    closed spec fn view(&self) -> SliderStateView {
        SliderStateView {
            position: self.position as int,
            lower: self.lower as int,
            upper: self.upper as int,
        }
    }
}

impl SliderState {
    /// A state with the thumb at `position`, in the range from `range.0` up to
    /// but not including `range.1`. Neither is checked against the other.
    pub fn new(position: u16, range: (u16, u16)) -> (state: Self)
        ensures
            state@ == (SliderStateView {
                position: position as int,
                lower: range.0 as int,
                upper: range.1 as int,
            }),
    {
        Self { position, lower: range.0, upper: range.1 }
    }

    /// The position of the thumb.
    pub fn position(&self) -> (position: u16)
        ensures
            position == self@.position,
    {
        self.position
    }

    /// The range: its lower bound and its upper bound.
    pub fn range(&self) -> (range: (u16, u16))
        ensures
            range.0 == self@.lower,
            range.1 == self@.upper,
    {
        (self.lower, self.upper)
    }

    /// Moves the thumb one step up, unless it is at or past the last position
    /// of the range, `upper - 1`.
    pub fn increment(&mut self)
        requires
            old(self)@.upper >= 1,
        ensures
            final(self)@ == old(self)@.incremented(),
    {
        let current: u16 = self.position;
        if current < self.upper - 1 {
            self.position = current.saturating_add(1);
        }
    }

    /// Moves the thumb one step down, unless it is at 0. The lower end of the
    /// range does not stop it.
    pub fn decrement(&mut self)
        ensures
            final(self)@ == old(self)@.decremented(),
    {
        self.position = self.position.saturating_sub(1);
    }
}

impl Default for SliderState {
    /// The thumb at 0 in the empty range from 0 to 0.
    fn default() -> (state: Self)
        ensures
            state@ == (SliderStateView { position: 0, lower: 0, upper: 0 }),
    {
        Self { position: 0, lower: 0, upper: 0 }
    }
}

/// A slider as it is set up for drawing.
#[derive(Debug, PartialEq)]
pub struct Slider {
    position: u16,
    lower: u16,
    upper: u16,
    label: Option<String>,
    label_style: Style,
    value_style: Style,
    show_value: bool,
    track_style: Style,
    thumb_style: Style,
}

/// A slider as a mathematical value.
pub struct SliderView {
    pub position: u16,
    pub range: (u16, u16),
    pub label: Option<Seq<char>>,
    pub label_style: Style,
    pub value_style: Style,
    pub show_value: bool,
    pub track_style: Style,
    pub thumb_style: Style,
}

/// The text of a label, where there is one.
pub open spec fn label_view(label: Option<String>) -> Option<Seq<char>> {
    match label {
        Some(text) => Some(text@),
        None => None,
    }
}

impl View for Slider {
    type V = SliderView;

    closed spec fn view(&self) -> SliderView {
        SliderView {
            position: self.position,
            range: (self.lower, self.upper),
            label: label_view(self.label),
            label_style: self.label_style,
            value_style: self.value_style,
            show_value: self.show_value,
            track_style: self.track_style,
            thumb_style: self.thumb_style,
        }
    }
}

impl Slider {
    /// A slider without a label that shows its value. All four styles are one
    /// and the same: ratatui's default style.
    pub fn new(position: u16, range: (u16, u16)) -> (slider: Self)
        ensures
            slider@.position == position,
            slider@.range == range,
            slider@.label.is_none(),
            slider@.show_value,
            is_default_style(slider@.label_style),
            slider@.value_style == slider@.label_style,
            slider@.track_style == slider@.label_style,
            slider@.thumb_style == slider@.label_style,
    {
        let style: Style = Style::default();
        Slider {
            position,
            lower: range.0,
            upper: range.1,
            label: None,
            label_style: style,
            value_style: style,
            show_value: true,
            track_style: style,
            thumb_style: style,
        }
    }

    /// The position of the thumb.
    pub fn position(&self) -> (position: u16)
        ensures
            position == self@.position,
    {
        self.position
    }

    /// Whether the value is shown below the track.
    pub fn show_value(&self) -> (show_value: bool)
        ensures
            show_value == self@.show_value,
    {
        self.show_value
    }

    /// The range: its lower bound and its upper bound.
    pub fn range(&self) -> (range: (u16, u16))
        ensures
            range == self@.range,
    {
        (self.lower, self.upper)
    }

    /// The label, if the slider has one.
    pub fn label(&self) -> (label: &Option<String>)
        ensures
            label_view(*label) == self@.label,
    {
        &self.label
    }

    /// The four styles: of the label, the value, the track and the thumb.
    pub fn styles(&self) -> (styles: (Style, Style, Style, Style))
        ensures
            styles.0 == self@.label_style,
            styles.1 == self@.value_style,
            styles.2 == self@.track_style,
            styles.3 == self@.thumb_style,
    {
        (self.label_style, self.value_style, self.track_style, self.thumb_style)
    }

    /// Sets the position of the thumb.
    pub fn set_position(&mut self, position: u16)
        ensures
            final(self)@ == (SliderView { position, ..old(self)@ }),
    {
        self.position = position;
    }

    /// Sets the range.
    pub fn set_range(&mut self, range: (u16, u16))
        ensures
            final(self)@ == (SliderView { range, ..old(self)@ }),
    {
        self.lower = range.0;
        self.upper = range.1;
    }

    /// Sets whether the value is shown.
    pub fn set_show_value(&mut self, value: bool)
        ensures
            final(self)@ == (SliderView { show_value: value, ..old(self)@ }),
    {
        self.show_value = value;
    }

    /// Sets the label, or takes it away.
    pub fn set_label(&mut self, label: Option<String>)
        ensures
            final(self)@ == (SliderView { label: label_view(label), ..old(self)@ }),
    {
        self.label = label;
    }

    /// Sets the style of the label.
    pub fn label_style(&mut self, style: Style)
        ensures
            final(self)@ == (SliderView { label_style: style, ..old(self)@ }),
    {
        self.label_style = style;
    }

    /// Sets the style of the value.
    pub fn value_style(&mut self, style: Style)
        ensures
            final(self)@ == (SliderView { value_style: style, ..old(self)@ }),
    {
        self.value_style = style;
    }

    /// Sets the style of the track.
    pub fn track_style(&mut self, style: Style)
        ensures
            final(self)@ == (SliderView { track_style: style, ..old(self)@ }),
    {
        self.track_style = style;
    }

    /// Sets the style of the thumb.
    pub fn thumb_style(&mut self, style: Style)
        ensures
            final(self)@ == (SliderView { thumb_style: style, ..old(self)@ }),
    {
        self.thumb_style = style;
    }
}

impl Clone for Slider {
    /// A slider equal to this one.
    fn clone(&self) -> (copy: Self)
        ensures
            copy@ == self@,
    {
        Slider {
            position: self.position,
            lower: self.lower,
            upper: self.upper,
            label: match &self.label {
                Some(text) => Some(text.clone()),
                None => None,
            },
            label_style: self.label_style,
            value_style: self.value_style,
            show_value: self.show_value,
            track_style: self.track_style,
            thumb_style: self.thumb_style,
        }
    }
}

impl Default for Slider {
    /// A slider at 0 in the empty range from 0 to 0, without a label, that
    /// does not show its value. All four styles are ratatui's default style.
    fn default() -> (slider: Self)
        ensures
            slider@.position == 0,
            slider@.range == (0u16, 0u16),
            slider@.label.is_none(),
            !slider@.show_value,
            is_default_style(slider@.label_style),
            slider@.value_style == slider@.label_style,
            slider@.track_style == slider@.label_style,
            slider@.thumb_style == slider@.label_style,
    {
        let style: Style = Style::default();
        Slider {
            position: 0,
            lower: 0,
            upper: 0,
            label: None,
            label_style: style,
            value_style: style,
            show_value: false,
            track_style: style,
            thumb_style: style,
        }
    }
}

} // verus!
