use vstd::prelude::*;

use crate::slider::{clamp_between, range_high, range_low, SliderModel};

verus! {

/// Clamping to a range, whichever way round it is given, lands inside it,
/// leaves a value that is already inside unchanged, and so clamping twice is
/// clamping once.
pub proof fn lemma_clamp_to_range(v: int, a: int, b: int)
    ensures
        range_low(a, b) <= clamp_between(v, a, b) <= range_high(a, b),
        range_low(a, b) <= v <= range_high(a, b) ==> clamp_between(v, a, b) == v,
        clamp_between(clamp_between(v, a, b), a, b) == clamp_between(v, a, b),
        clamp_between(v, a, b) == clamp_between(v, b, a),
        v < range_low(a, b) ==> clamp_between(v, a, b) == range_low(a, b),
        v > range_high(a, b) ==> clamp_between(v, a, b) == range_high(a, b),
{
}

/// A slider clamps a value to the closed interval between its range's two
/// ends: to the nearer end when outside it, to itself when inside it.
pub proof fn lemma_slider_clamp(m: SliderModel, v: int)
    ensures
        m.clamp(v) == clamp_between(v, m.range_start, m.range_end),
        range_low(m.range_start, m.range_end) <= m.clamp(v) <= range_high(m.range_start, m.range_end),
        v < range_low(m.range_start, m.range_end) ==> m.clamp(v) == range_low(m.range_start, m.range_end),
        v > range_high(m.range_start, m.range_end) ==> m.clamp(v) == range_high(m.range_start, m.range_end),
        range_low(m.range_start, m.range_end) <= v <= range_high(m.range_start, m.range_end) ==> m.clamp(v) == v,
{
}

/// Moving both values sets them exactly as given; the scroll step sets them
/// and clamps each to the range, with no separation applied; both keep every
/// setting.
pub proof fn lemma_move_and_scroll(m: SliderModel, a: int, b: int)
    ensures
        m.with_values(a, b).first == a,
        m.with_values(a, b).second == b,
        m.with_values(a, b).same_settings(m),
        m.with_values(a, b).clamped().first == clamp_between(a, m.range_start, m.range_end),
        m.with_values(a, b).clamped().second == clamp_between(b, m.range_start, m.range_end),
        m.with_values(a, b).clamped().range_start == m.range_start,
        m.with_values(a, b).clamped().range_end == m.range_end,
        m.with_values(a, b).clamped().separation == m.separation,
{
}

/// After the lower handle's step, the upper handle's step, or the scroll
/// step, both values lie in the range, whichever way round it is given.
pub proof fn lemma_steps_stay_in_range(m: SliderModel, dragged: Option<i128>, first: int, second: int)
    ensures
        m.first_handle_step(dragged).in_range(),
        m.second_handle_step(dragged).in_range(),
        m.with_values(first, second).clamped().in_range(),
{
}

/// The steps move the two values only: every setting stays as it was, the
/// invariant of the logarithmic scale among them.
pub proof fn lemma_steps_keep_settings(m: SliderModel, dragged: Option<i128>, first: i128, second: i128)
    ensures
        m.first_handle_step(dragged).same_settings(m),
        m.second_handle_step(dragged).same_settings(m),
        m.with_values(first as int, second as int).clamped().same_settings(m),
        m.wf() ==> m.first_handle_step(dragged).wf(),
        m.wf() ==> m.second_handle_step(dragged).wf(),
        m.wf() ==> m.with_values(first as int, second as int).clamped().wf(),
{
}

/// A slider whose values lie in the range and stand at least the separation
/// distance apart is left exactly as it is by either handle's step when
/// nothing was dragged.
pub proof fn lemma_settled_slider_is_unchanged(m: SliderModel)
    requires
        m.in_range(),
        m.separated(),
    ensures
        m.first_handle_step(None) == m,
        m.second_handle_step(None) == m,
{
}

/// When pushing by dragging, a dragged handle's value is where it was
/// dragged to, clamped to the range: it is the other value that yields.
/// Otherwise the value that was not dragged stays where it was, clamped to
/// the range: it is the dragged value that yields.
pub proof fn lemma_who_yields(m: SliderModel, v: i128)
    ensures
        m.push_by_dragging ==> m.first_handle_step(Some(v)).first == m.clamp(v as int),
        m.push_by_dragging ==> m.second_handle_step(Some(v)).second == m.clamp(v as int),
        !m.push_by_dragging ==> m.first_handle_step(Some(v)).second == m.clamp(m.second),
        !m.push_by_dragging ==> m.second_handle_step(Some(v)).first == m.clamp(m.first),
{
}

/// The lower handle's step leaves the two values at least the separation
/// distance apart whenever the value that yields can stand there inside the
/// range: when pushing by dragging, the lower value (dragged or not) lies in
/// the range and the separation distance above it still does; otherwise the
/// upper value lies in the range and the separation distance below it still
/// does.
pub proof fn lemma_first_step_separates(m: SliderModel, dragged: Option<i128>)
    requires
        m.wf(),
        ({
            let f = match dragged {
                Some(v) => v as int,
                None => m.first,
            };
            let low = range_low(m.range_start, m.range_end);
            let high = range_high(m.range_start, m.range_end);
            if m.push_by_dragging {
                low <= f <= high && f + m.separation <= high
            } else {
                low <= m.second <= high && low <= m.second - m.separation
            }
        }),
    ensures
        m.first_handle_step(dragged).separated(),
{
}

/// The upper handle's step leaves the two values at least the separation
/// distance apart whenever the value that yields can stand there inside the
/// range: when pushing by dragging, the upper value (dragged or not) lies in
/// the range and the separation distance below it still does; otherwise the
/// lower value lies in the range and the separation distance above it still
/// does.
pub proof fn lemma_second_step_separates(m: SliderModel, dragged: Option<i128>)
    requires
        m.wf(),
        ({
            let s = match dragged {
                Some(v) => v as int,
                None => m.second,
            };
            let low = range_low(m.range_start, m.range_end);
            let high = range_high(m.range_start, m.range_end);
            if m.push_by_dragging {
                low <= s <= high && low <= s - m.separation
            } else {
                low <= m.first <= high && m.first + m.separation <= high
            }
        }),
    ensures
        m.second_handle_step(dragged).separated(),
{
}

/// One frame in which the upper handle is not dragged: the lower handle's
/// step (dragged or not) followed by the upper handle's step with nothing
/// dragged leaves the two values in the range, in order, and at least the
/// separation distance apart, whenever the values and the drag start in the
/// range and the separation distance is between zero and the range's width
/// (pushing by dragging or not).
pub proof fn lemma_frame_settles(m: SliderModel, dragged: Option<i128>)
    requires
        m.wf(),
        m.in_range(),
        0 <= m.separation <= range_high(m.range_start, m.range_end) - range_low(m.range_start, m.range_end),
        dragged matches Some(v) ==> range_low(m.range_start, m.range_end) <= v <= range_high(m.range_start, m.range_end),
    ensures
        m.first_handle_step(dragged).second_handle_step(None).in_range(),
        m.first_handle_step(dragged).second_handle_step(None).separated(),
        m.first_handle_step(dragged).second_handle_step(None).first
            <= m.first_handle_step(dragged).second_handle_step(None).second,
{
}

/// The value a handle's step starts from: where it was dragged to, or where
/// it stood.
pub open spec fn start_value(dragged: Option<i128>, current: int) -> int {
    match dragged {
        Some(v) => v as int,
        None => current,
    }
}

/// Lower handle, pushing by dragging, the upper value standing less than the
/// separation distance above the lower one: the lower value ends where it
/// was dragged to and the upper value exactly the separation distance above
/// it, both clamped to the range (never further).
pub proof fn lemma_first_step_pushes_exactly(m: SliderModel, dragged: Option<i128>)
    requires
        m.wf(),
        m.push_by_dragging,
        m.second < start_value(dragged, m.first) + m.separation,
    ensures
        m.first_handle_step(dragged).first
            == clamp_between(start_value(dragged, m.first), m.range_start, m.range_end),
        m.first_handle_step(dragged).second
            == clamp_between(start_value(dragged, m.first) + m.separation, m.range_start, m.range_end),
{
}

/// Lower handle, not pushing, the upper value standing less than the
/// separation distance above the (dragged) lower one: the upper value stays
/// and the lower value is held back to exactly the separation distance below
/// it, both clamped to the range (never further).
pub proof fn lemma_first_step_holds_back_exactly(m: SliderModel, dragged: Option<i128>)
    requires
        m.wf(),
        !m.push_by_dragging,
        m.second < start_value(dragged, m.first) + m.separation,
    ensures
        m.first_handle_step(dragged).first
            == clamp_between(m.second - m.separation, m.range_start, m.range_end),
        m.first_handle_step(dragged).second == clamp_between(m.second, m.range_start, m.range_end),
{
}

/// Lower handle, the upper value already the separation distance or more
/// above the (dragged) lower one: neither value is moved apart, both are
/// only clamped to the range.
pub proof fn lemma_first_step_separated_only_clamps(m: SliderModel, dragged: Option<i128>)
    requires
        m.second >= start_value(dragged, m.first) + m.separation,
    ensures
        m.first_handle_step(dragged).first
            == clamp_between(start_value(dragged, m.first), m.range_start, m.range_end),
        m.first_handle_step(dragged).second == clamp_between(m.second, m.range_start, m.range_end),
{
}

/// Upper handle, pushing by dragging, the lower value standing less than the
/// separation distance below the (dragged) upper one: the upper value ends
/// where it was dragged to and the lower value exactly the separation
/// distance below it, both clamped to the range (never further).
pub proof fn lemma_second_step_pushes_exactly(m: SliderModel, dragged: Option<i128>)
    requires
        m.wf(),
        m.push_by_dragging,
        m.first > start_value(dragged, m.second) - m.separation,
    ensures
        m.second_handle_step(dragged).first
            == clamp_between(start_value(dragged, m.second) - m.separation, m.range_start, m.range_end),
        m.second_handle_step(dragged).second
            == clamp_between(start_value(dragged, m.second), m.range_start, m.range_end),
{
}

/// Upper handle, not pushing, the lower value standing less than the
/// separation distance below the (dragged) upper one: the lower value stays
/// and the upper value is held back to exactly the separation distance above
/// it, both clamped to the range (never further).
pub proof fn lemma_second_step_holds_back_exactly(m: SliderModel, dragged: Option<i128>)
    requires
        m.wf(),
        !m.push_by_dragging,
        m.first > start_value(dragged, m.second) - m.separation,
    ensures
        m.second_handle_step(dragged).first == clamp_between(m.first, m.range_start, m.range_end),
        m.second_handle_step(dragged).second
            == clamp_between(m.first + m.separation, m.range_start, m.range_end),
{
}

/// Upper handle, the lower value already the separation distance or more
/// below the (dragged) upper one: neither value is moved apart, both are
/// only clamped to the range.
pub proof fn lemma_second_step_separated_only_clamps(m: SliderModel, dragged: Option<i128>)
    requires
        m.first <= start_value(dragged, m.second) - m.separation,
    ensures
        m.second_handle_step(dragged).first == clamp_between(m.first, m.range_start, m.range_end),
        m.second_handle_step(dragged).second
            == clamp_between(start_value(dragged, m.second), m.range_start, m.range_end),
{
}

} // verus!
