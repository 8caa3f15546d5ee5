use vstd::prelude::*;

use crate::orientation::SliderOrientation;
use egui::Color32;
use egui::Stroke;

verus! {

/// The lower end of the closed interval between two range endpoints,
/// whichever way round the range is given.
pub open spec fn range_low(a: int, b: int) -> int {
    if a <= b { a } else { b }
}

/// The upper end of the closed interval between two range endpoints.
pub open spec fn range_high(a: int, b: int) -> int {
    if a <= b { b } else { a }
}

/// `v` pulled into the closed interval between `a` and `b`.
pub open spec fn clamp_between(v: int, a: int, b: int) -> int {
    if v < range_low(a, b) {
        range_low(a, b)
    } else if v > range_high(a, b) {
        range_high(a, b)
    } else {
        v
    }
}

/// `x` as the nearest value an `i128` can hold.
pub open spec fn saturate(x: int) -> int {
    if x < i128::MIN {
        i128::MIN as int
    } else if x > i128::MAX {
        i128::MAX as int
    } else {
        x
    }
}

/// What a double slider is, as values: the two numbers it controls and
/// every setting that decides how they move.
pub struct SliderModel {
    pub first: int,
    pub second: int,
    pub separation: int,
    pub range_start: int,
    pub range_end: int,
    pub inverted_highlighting: bool,
    pub vertical_scroll: bool,
    pub horizontal_scroll: bool,
    pub logarithmic: bool,
    pub push_by_dragging: bool,
    pub orientation: SliderOrientation,
    pub color: Option<Color32>,
    pub stroke: Option<Stroke>,
    pub cursor_fill: Option<Color32>,
}

impl SliderModel {
    /// Every number fits an `i128`, and a logarithmic scale is only ever set
    /// on a range of strictly positive endpoints.
    pub open spec fn wf(self) -> bool {
        &&& i128::MIN <= self.first <= i128::MAX
        &&& i128::MIN <= self.second <= i128::MAX
        &&& i128::MIN <= self.separation <= i128::MAX
        &&& i128::MIN <= self.range_start <= i128::MAX
        &&& i128::MIN <= self.range_end <= i128::MAX
        &&& self.logarithmic ==> (self.range_start > 0 && self.range_end > 0)
    }

    /// `v` clamped to the slider's range.
    pub open spec fn clamp(self, v: int) -> int {
        clamp_between(v, self.range_start, self.range_end)
    }

    /// Both values lie in the range.
    pub open spec fn in_range(self) -> bool {
        &&& range_low(self.range_start, self.range_end) <= self.first
        &&& self.first <= range_high(self.range_start, self.range_end)
        &&& range_low(self.range_start, self.range_end) <= self.second
        &&& self.second <= range_high(self.range_start, self.range_end)
    }

    /// The second value stands at least the separation distance above the
    /// first.
    pub open spec fn separated(self) -> bool {
        self.second >= self.first + self.separation
    }

    /// The model with both values replaced.
    pub open spec fn with_values(self, first: int, second: int) -> SliderModel {
        SliderModel { first, second, ..self }
    }

    /// The model with both values clamped to the range.
    pub open spec fn clamped(self) -> SliderModel {
        self.with_values(self.clamp(self.first), self.clamp(self.second))
    }

    /// What the lower handle's step leaves: the lower value set where it was
    /// dragged to (if it was), the pair pushed or pulled apart to the
    /// separation distance (the other value moves when pushing by dragging,
    /// the dragged one otherwise), then both clamped to the range.
    pub open spec fn first_handle_step(self, dragged: Option<i128>) -> SliderModel {
        let f = match dragged {
            Some(v) => v as int,
            None => self.first,
        };
        let s = self.second;
        let sep = self.separation;
        let moved = if s < f + sep {
            if self.push_by_dragging {
                self.with_values(f, saturate(f + sep))
            } else {
                self.with_values(saturate(s - sep), s)
            }
        } else {
            self.with_values(f, s)
        };
        moved.clamped()
    }

    /// What the upper handle's step leaves: the upper value set where it was
    /// dragged to (if it was), the pair pushed or pulled apart to the
    /// separation distance (the other value moves when pushing by dragging,
    /// the dragged one otherwise), then both clamped to the range.
    pub open spec fn second_handle_step(self, dragged: Option<i128>) -> SliderModel {
        let s = match dragged {
            Some(v) => v as int,
            None => self.second,
        };
        let f = self.first;
        let sep = self.separation;
        let moved = if f > s - sep {
            if self.push_by_dragging {
                self.with_values(saturate(s - sep), s)
            } else {
                self.with_values(f, saturate(f + sep))
            }
        } else {
            self.with_values(f, s)
        };
        moved.clamped()
    }

    /// The same model with only the settings compared (the values left out).
    pub open spec fn same_settings(self, other: SliderModel) -> bool {
        self.with_values(0, 0) == other.with_values(0, 0)
    }
}

/// The sum of two `i128` values, saturated at the bounds of `i128`.
fn saturating_sum(a: i128, b: i128) -> (r: i128)
    ensures
        r == saturate(a + b),
{
    if b >= 0 {
        if a > i128::MAX - b {
            i128::MAX
        } else {
            a + b
        }
    } else {
        if a < i128::MIN - b {
            i128::MIN
        } else {
            a + b
        }
    }
}

/// The difference of two `i128` values, saturated at the bounds of `i128`.
fn saturating_difference(a: i128, b: i128) -> (r: i128)
    ensures
        r == saturate(a - b),
{
    if b >= 0 {
        if a < i128::MIN + b {
            i128::MIN
        } else {
            a - b
        }
    } else {
        if a > i128::MAX + b {
            i128::MAX
        } else {
            a - b
        }
    }
}

/// Whether `s` lies below `f + sep`, decided without overflow.
fn below_sum(s: i128, f: i128, sep: i128) -> (r: bool)
    ensures
        r == (s < f + sep),
{
    if sep >= 0 {
        if f > i128::MAX - sep {
            true
        } else {
            s < f + sep
        }
    } else {
        if f < i128::MIN - sep {
            false
        } else {
            s < f + sep
        }
    }
}

/// Control two numbers with a double slider.
///
/// The slider range defines the values you get when pulling the slider to the
/// far edges. The range can include any numbers, and go from low-to-high or
/// from high-to-low.
///
/// This type holds the two values and the settings that decide how they
/// move; the steps that settle the values after a drag or a scroll are its
/// methods.
pub struct DoubleSlider {
    first_slider: i128,
    second_slider: i128,
    separation_distance: i128,
    range_start: i128,
    range_end: i128,
    inverted_highlighting: bool,
    vertical_scroll: bool,
    horizontal_scroll: bool,
    logarithmic: bool,
    push_by_dragging: bool,
    orientation: SliderOrientation,
    color: Option<Color32>,
    stroke: Option<Stroke>,
    cursor_fill: Option<Color32>,
}

impl View for DoubleSlider {
    type V = SliderModel;

    closed spec fn view(&self) -> SliderModel {
        SliderModel {
            first: self.first_slider as int,
            second: self.second_slider as int,
            separation: self.separation_distance as int,
            range_start: self.range_start as int,
            range_end: self.range_end as int,
            inverted_highlighting: self.inverted_highlighting,
            vertical_scroll: self.vertical_scroll,
            horizontal_scroll: self.horizontal_scroll,
            logarithmic: self.logarithmic,
            push_by_dragging: self.push_by_dragging,
            orientation: self.orientation,
            color: self.color,
            stroke: self.stroke,
            cursor_fill: self.cursor_fill,
        }
    }
}

impl DoubleSlider {
    #[verifier::type_invariant]
    closed spec fn log_scale_has_positive_range(self) -> bool {
        self.logarithmic ==> (self.range_start > 0 && self.range_end > 0)
    }

    /// A slider over `lower_value` and `upper_value` with the given range and
    /// the default settings: separation distance 1, highlighting not
    /// inverted, both scroll axes enabled, linear scale, pushing by dragging,
    /// horizontal, and no colours or stroke chosen.
    pub fn new(lower_value: i128, upper_value: i128, range_start: i128, range_end: i128) -> (s: Self)
        ensures
            s@ == (SliderModel {
                first: lower_value as int,
                second: upper_value as int,
                separation: 1,
                range_start: range_start as int,
                range_end: range_end as int,
                inverted_highlighting: false,
                vertical_scroll: true,
                horizontal_scroll: true,
                logarithmic: false,
                push_by_dragging: true,
                orientation: SliderOrientation::Horizontal,
                color: None,
                stroke: None,
                cursor_fill: None,
            }),
            s@.wf(),
    {
        DoubleSlider {
            first_slider: lower_value,
            second_slider: upper_value,
            separation_distance: 1,
            range_start,
            range_end,
            inverted_highlighting: false,
            vertical_scroll: true,
            horizontal_scroll: true,
            logarithmic: false,
            push_by_dragging: true,
            orientation: SliderOrientation::Horizontal,
            color: None,
            stroke: None,
            cursor_fill: None,
        }
    }
    /// `val` clamped to the slider's range: the range's lower end below it,
    /// its upper end above it, `val` itself inside it, whichever way round
    /// the range is given.
    pub fn clamp_to_range(&self, val: i128) -> (r: i128)
        ensures
            r == self@.clamp(val as int),
    {
        let (low, high) = if self.range_start <= self.range_end {
            (self.range_start, self.range_end)
        } else {
            (self.range_end, self.range_start)
        };
        if val < low {
            low
        } else if val > high {
            high
        } else {
            val
        }
    }

    /// Clamps both values to the range.
    fn clamp_values(&mut self)
        ensures
            final(self)@ == old(self)@.clamped(),
    {
        proof { use_type_invariant(&*self); }
        let first = self.clamp_to_range(self.first_slider);
        let second = self.clamp_to_range(self.second_slider);
        self.first_slider = first;
        self.second_slider = second;
    }

    /// The lower handle's step: sets the lower value where the handle was
    /// dragged to (if it was), then restores the separation distance (when
    /// the upper value stands less than it above the lower one, the upper
    /// value is pushed up when pushing by dragging, else the lower value is
    /// pulled down), then clamps both values to the range.
    pub fn handle_first(&mut self, dragged_to: Option<i128>)
        ensures
            final(self)@ == old(self)@.first_handle_step(dragged_to),
            final(self)@.wf(),
    {
        proof { use_type_invariant(&*self); }
        if let Some(v) = dragged_to {
            self.first_slider = v;
        }
        let below = below_sum(self.second_slider, self.first_slider, self.separation_distance);
        if below {
            if self.push_by_dragging {
                self.second_slider = saturating_sum(self.first_slider, self.separation_distance);
            } else {
                self.first_slider = saturating_difference(self.second_slider, self.separation_distance);
            }
        }
        self.clamp_values();
    }

    /// The upper handle's step: sets the upper value where the handle was
    /// dragged to (if it was), then restores the separation distance (when
    /// the lower value stands less than it below the upper one, the lower
    /// value is pushed down when pushing by dragging, else the upper value
    /// is pulled up), then clamps both values to the range.
    pub fn handle_second(&mut self, dragged_to: Option<i128>)
        ensures
            final(self)@ == old(self)@.second_handle_step(dragged_to),
            final(self)@.wf(),
    {
        proof { use_type_invariant(&*self); }
        if let Some(v) = dragged_to {
            self.second_slider = v;
        }
        let above = below_sum(self.second_slider, self.first_slider, self.separation_distance);
        if above {
            if self.push_by_dragging {
                self.first_slider = saturating_difference(self.second_slider, self.separation_distance);
            } else {
                self.second_slider = saturating_sum(self.first_slider, self.separation_distance);
            }
        }
        self.clamp_values();
    }

    /// Moves both values together, as dragging the highlighted part between
    /// the handles does; nothing is clamped here (the handle steps that
    /// follow clamp).
    pub fn move_both(&mut self, first: i128, second: i128)
        ensures
            final(self)@ == old(self)@.with_values(first as int, second as int),
            final(self)@.wf(),
    {
        proof { use_type_invariant(&*self); }
        self.second_slider = second;
        self.first_slider = first;
    }

    /// The scroll and zoom step: sets both values to where scrolling and
    /// zooming moved them, then clamps both to the range.
    pub fn apply_scroll(&mut self, first: i128, second: i128)
        ensures
            final(self)@ == old(self)@.with_values(first as int, second as int).clamped(),
            final(self)@.wf(),
    {
        proof { use_type_invariant(&*self); }
        self.first_slider = first;
        self.second_slider = second;
        self.clamp_values();
    }
    /// Vertical or horizontal slider? The default is horizontal.
    pub fn orientation(self, orientation: SliderOrientation) -> (s: Self)
        ensures
            s@ == (SliderModel { orientation, ..self@ }),
            s@.wf(),
    {
        proof { use_type_invariant(&self); }
        let mut s = self;
        s.orientation = orientation;
        s
    }

    /// Enable the horizontal scroll axis. Default is true.
    pub fn horizontal_scroll(self, enable: bool) -> (s: Self)
        ensures
            s@ == (SliderModel { horizontal_scroll: enable, ..self@ }),
            s@.wf(),
    {
        proof { use_type_invariant(&self); }
        let mut s = self;
        s.horizontal_scroll = enable;
        s
    }

    /// Enable the vertical scroll axis. Default is true.
    pub fn vertical_scroll(self, enable: bool) -> (s: Self)
        ensures
            s@ == (SliderModel { vertical_scroll: enable, ..self@ }),
            s@.wf(),
    {
        proof { use_type_invariant(&self); }
        let mut s = self;
        s.vertical_scroll = enable;
        s
    }

    /// Invert the highlighted part. Default is false.
    pub fn invert_highlighting(self, inverted_highlighting: bool) -> (s: Self)
        ensures
            s@ == (SliderModel { inverted_highlighting, ..self@ }),
            s@.wf(),
    {
        proof { use_type_invariant(&self); }
        let mut s = self;
        s.inverted_highlighting = inverted_highlighting;
        s
    }

    /// Set the separation distance for the two sliders. Default is 1.
    pub fn separation_distance(self, separation_distance: i128) -> (s: Self)
        ensures
            s@ == (SliderModel { separation: separation_distance as int, ..self@ }),
            s@.wf(),
    {
        proof { use_type_invariant(&self); }
        let mut s = self;
        s.separation_distance = separation_distance;
        s
    }

    /// Set the primary color for the slider. By default none is chosen and
    /// the widget takes the inactive background fill of the style.
    pub fn color(self, color: Color32) -> (s: Self)
        ensures
            s@ == (SliderModel { color: Some(color), ..self@ }),
            s@.wf(),
    {
        proof { use_type_invariant(&self); }
        let mut s = self;
        s.color = Some(color);
        s
    }

    /// Set the stroke for the main line. By default none is chosen and the
    /// widget draws a line 7 wide in the selection background colour.
    pub fn stroke(self, stroke: Stroke) -> (s: Self)
        ensures
            s@ == (SliderModel { stroke: Some(stroke), ..self@ }),
            s@.wf(),
    {
        proof { use_type_invariant(&self); }
        let mut s = self;
        s.stroke = Some(stroke);
        s
    }

    /// Set the color fill for the slider cursor. By default none is chosen
    /// and the widget takes the background fill of the interaction style.
    pub fn cursor_fill(self, cursor_fill: Color32) -> (s: Self)
        ensures
            s@ == (SliderModel { cursor_fill: Some(cursor_fill), ..self@ }),
            s@.wf(),
    {
        proof { use_type_invariant(&self); }
        let mut s = self;
        s.cursor_fill = Some(cursor_fill);
        s
    }

    /// Whether both ends of the range are strictly positive, which a
    /// logarithmic scale needs.
    pub fn range_is_positive(&self) -> (r: bool)
        ensures
            r == (self@.range_start > 0 && self@.range_end > 0),
    {
        self.range_start > 0 && self.range_end > 0
    }

    /// Use a logarithmic scale. Default is false. A logarithmic scale can
    /// only be used with a range of strictly positive values (both start and
    /// end).
    pub fn logarithmic(self, logarithmic: bool) -> (s: Self)
        requires
            logarithmic ==> (self@.range_start > 0 && self@.range_end > 0),
        ensures
            s@ == (SliderModel { logarithmic, ..self@ }),
            s@.wf(),
    {
        proof { use_type_invariant(&self); }
        let mut s = self;
        s.logarithmic = logarithmic;
        s
    }

    /// Allow to drag the lower value to the right of the upper value, and
    /// vice versa. Default is true.
    pub fn push_by_dragging(self, push_by_dragging: bool) -> (s: Self)
        ensures
            s@ == (SliderModel { push_by_dragging, ..self@ }),
            s@.wf(),
    {
        proof { use_type_invariant(&self); }
        let mut s = self;
        s.push_by_dragging = push_by_dragging;
        s
    }

    /// The lower value.
    pub fn lower(&self) -> (r: i128)
        ensures
            r == self@.first,
    {
        self.first_slider
    }

    /// The upper value.
    pub fn upper(&self) -> (r: i128)
        ensures
            r == self@.second,
    {
        self.second_slider
    }

    /// The separation distance.
    pub fn separation(&self) -> (r: i128)
        ensures
            r == self@.separation,
    {
        self.separation_distance
    }

    /// The start of the range (the value at the slider's start edge).
    pub fn range_start(&self) -> (r: i128)
        ensures
            r == self@.range_start,
    {
        self.range_start
    }

    /// The end of the range (the value at the slider's end edge).
    pub fn range_end(&self) -> (r: i128)
        ensures
            r == self@.range_end,
    {
        self.range_end
    }

    /// Whether the highlighted part is inverted.
    pub fn highlighting_is_inverted(&self) -> (r: bool)
        ensures
            r == self@.inverted_highlighting,
    {
        self.inverted_highlighting
    }

    /// Whether the vertical scroll axis moves the values.
    pub fn vertical_scroll_enabled(&self) -> (r: bool)
        ensures
            r == self@.vertical_scroll,
    {
        self.vertical_scroll
    }

    /// Whether the horizontal scroll axis moves the values.
    pub fn horizontal_scroll_enabled(&self) -> (r: bool)
        ensures
            r == self@.horizontal_scroll,
    {
        self.horizontal_scroll
    }

    /// Whether the scale is logarithmic.
    pub fn is_logarithmic(&self) -> (r: bool)
        ensures
            r == self@.logarithmic,
            r ==> (self@.range_start > 0 && self@.range_end > 0),
    {
        proof { use_type_invariant(self); }
        self.logarithmic
    }

    /// Whether dragging one value pushes the other.
    pub fn pushes_by_dragging(&self) -> (r: bool)
        ensures
            r == self@.push_by_dragging,
    {
        self.push_by_dragging
    }

    /// The slider's orientation.
    pub fn slider_orientation(&self) -> (r: SliderOrientation)
        ensures
            r == self@.orientation,
    {
        self.orientation
    }

    /// The chosen primary color, if any.
    pub fn chosen_color(&self) -> (r: Option<Color32>)
        ensures
            r == self@.color,
    {
        self.color
    }

    /// The chosen stroke for the main line, if any.
    pub fn chosen_stroke(&self) -> (r: Option<Stroke>)
        ensures
            r == self@.stroke,
    {
        self.stroke
    }

    /// The chosen cursor fill, if any.
    pub fn chosen_cursor_fill(&self) -> (r: Option<Color32>)
        ensures
            r == self@.cursor_fill,
    {
        self.cursor_fill
    }
}

} // verus!
