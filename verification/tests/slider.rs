use egui::{Color32, Stroke};
use egui_double_slider::{DoubleSlider, SliderOrientation};

fn values(s: &DoubleSlider) -> (i128, i128) {
    (s.lower(), s.upper())
}

#[test]
fn new_has_the_documented_defaults() {
    let s = DoubleSlider::new(10, 20, 0, 100);
    assert_eq!(values(&s), (10, 20));
    assert_eq!(s.separation(), 1);
    assert_eq!(s.range_start(), 0);
    assert_eq!(s.range_end(), 100);
    assert!(!s.highlighting_is_inverted());
    assert!(s.vertical_scroll_enabled());
    assert!(s.horizontal_scroll_enabled());
    assert!(!s.is_logarithmic());
    assert!(s.pushes_by_dragging());
    assert_eq!(s.slider_orientation(), SliderOrientation::Horizontal);
    assert!(s.chosen_color().is_none());
    assert!(s.chosen_stroke().is_none());
    assert!(s.chosen_cursor_fill().is_none());
}

#[test]
fn builders_set_each_setting() {
    let red = Color32::from_rgb(255, 0, 0);
    let blue = Color32::from_rgb(0, 0, 255);
    let line = Stroke::new(3.0, red);
    let s = DoubleSlider::new(1, 2, 0, 10)
        .orientation(SliderOrientation::Vertical)
        .horizontal_scroll(false)
        .vertical_scroll(false)
        .invert_highlighting(true)
        .separation_distance(5)
        .color(red)
        .stroke(line)
        .cursor_fill(blue)
        .push_by_dragging(false);
    assert_eq!(s.slider_orientation(), SliderOrientation::Vertical);
    assert!(!s.horizontal_scroll_enabled());
    assert!(!s.vertical_scroll_enabled());
    assert!(s.highlighting_is_inverted());
    assert_eq!(s.separation(), 5);
    assert_eq!(s.chosen_color(), Some(red));
    assert_eq!(s.chosen_stroke(), Some(line));
    assert_eq!(s.chosen_cursor_fill(), Some(blue));
    assert!(!s.pushes_by_dragging());
    assert_eq!(values(&s), (1, 2));
}

#[test]
fn logarithmic_on_a_positive_range() {
    let s = DoubleSlider::new(2, 50, 1, 100);
    assert!(s.range_is_positive());
    let s = s.logarithmic(true);
    assert!(s.is_logarithmic());
    let s = s.logarithmic(false);
    assert!(!s.is_logarithmic());
}

#[test]
fn range_with_zero_is_not_positive() {
    assert!(!DoubleSlider::new(0, 5, 0, 10).range_is_positive());
    assert!(!DoubleSlider::new(0, 5, 10, -1).range_is_positive());
    assert!(DoubleSlider::new(0, 5, 10, 1).range_is_positive());
    // a linear scale may always be asked for
    assert!(!DoubleSlider::new(0, 5, 0, 10).logarithmic(false).is_logarithmic());
}

#[test]
fn clamp_to_range_either_way_round() {
    let up = DoubleSlider::new(0, 0, 0, 100);
    assert_eq!(up.clamp_to_range(-5), 0);
    assert_eq!(up.clamp_to_range(50), 50);
    assert_eq!(up.clamp_to_range(150), 100);
    let down = DoubleSlider::new(0, 0, 100, 0);
    assert_eq!(down.clamp_to_range(-5), 0);
    assert_eq!(down.clamp_to_range(50), 50);
    assert_eq!(down.clamp_to_range(150), 100);
    let point = DoubleSlider::new(0, 0, 7, 7);
    assert_eq!(point.clamp_to_range(i128::MIN), 7);
    assert_eq!(point.clamp_to_range(i128::MAX), 7);
}

#[test]
fn dragging_lower_past_upper_pushes_upper() {
    let mut s = DoubleSlider::new(10, 20, 0, 100);
    s.handle_first(Some(30));
    assert_eq!(values(&s), (30, 31));
}

#[test]
fn dragging_lower_past_upper_without_push_holds_lower_back() {
    let mut s = DoubleSlider::new(10, 20, 0, 100).push_by_dragging(false);
    s.handle_first(Some(30));
    assert_eq!(values(&s), (19, 20));
}

#[test]
fn dragging_upper_below_lower_pushes_lower() {
    let mut s = DoubleSlider::new(10, 20, 0, 100).separation_distance(4);
    s.handle_second(Some(5));
    assert_eq!(values(&s), (1, 5));
}

#[test]
fn dragging_upper_below_lower_without_push_holds_upper_back() {
    let mut s = DoubleSlider::new(10, 20, 0, 100)
        .separation_distance(4)
        .push_by_dragging(false);
    s.handle_second(Some(5));
    assert_eq!(values(&s), (10, 14));
}

#[test]
fn dragging_within_the_gap_moves_only_the_dragged_value() {
    let mut s = DoubleSlider::new(10, 20, 0, 100);
    s.handle_first(Some(15));
    assert_eq!(values(&s), (15, 20));
    s.handle_second(Some(40));
    assert_eq!(values(&s), (15, 40));
}

#[test]
fn pushing_past_the_range_end_is_clamped() {
    let mut s = DoubleSlider::new(10, 20, 0, 100);
    s.handle_first(Some(100));
    // the pushed value is clamped back to the range end: the separation yields
    assert_eq!(values(&s), (100, 100));
    let mut s = DoubleSlider::new(10, 20, 0, 100);
    s.handle_first(Some(250));
    assert_eq!(values(&s), (100, 100));
}

#[test]
fn steps_clamp_values_outside_the_range() {
    let mut s = DoubleSlider::new(-50, 500, 0, 100);
    s.handle_first(None);
    assert_eq!(values(&s), (0, 100));
    let mut s = DoubleSlider::new(-50, 500, 0, 100);
    s.handle_second(None);
    assert_eq!(values(&s), (0, 100));
}

#[test]
fn steps_on_a_reversed_range() {
    let mut s = DoubleSlider::new(30, 40, 100, 0);
    s.handle_first(Some(120));
    assert_eq!(values(&s), (100, 100));
    let mut s = DoubleSlider::new(30, 40, 100, 0);
    s.handle_second(Some(-10));
    assert_eq!(values(&s), (0, 0));
}

#[test]
fn a_settled_slider_is_left_unchanged() {
    let mut s = DoubleSlider::new(10, 20, 0, 100).separation_distance(10);
    s.handle_first(None);
    assert_eq!(values(&s), (10, 20));
    s.handle_second(None);
    assert_eq!(values(&s), (10, 20));
}

#[test]
fn separation_is_restored_when_it_fits() {
    let mut s = DoubleSlider::new(50, 50, 0, 100).separation_distance(7);
    s.handle_first(None);
    assert_eq!(values(&s), (50, 57));
    let mut s = DoubleSlider::new(50, 50, 0, 100).separation_distance(7);
    s.handle_second(None);
    assert_eq!(values(&s), (43, 50));
}

#[test]
fn negative_separation_lets_values_cross() {
    let mut s = DoubleSlider::new(30, 25, 0, 100).separation_distance(-10);
    s.handle_first(None);
    assert_eq!(values(&s), (30, 25));
    s.handle_first(Some(40));
    assert_eq!(values(&s), (40, 30));
}

#[test]
fn separation_saturates_at_the_bounds_of_i128() {
    let mut s = DoubleSlider::new(i128::MAX - 1, 0, i128::MIN, i128::MAX)
        .separation_distance(i128::MAX);
    s.handle_first(None);
    assert_eq!(values(&s), (i128::MAX - 1, i128::MAX));
    let mut s = DoubleSlider::new(0, i128::MIN + 1, i128::MIN, i128::MAX)
        .separation_distance(i128::MAX)
        .push_by_dragging(false);
    s.handle_first(None);
    assert_eq!(values(&s), (i128::MIN, i128::MIN + 1));
}

#[test]
fn move_both_sets_values_without_clamping() {
    let mut s = DoubleSlider::new(10, 20, 0, 100);
    s.move_both(95, 105);
    assert_eq!(values(&s), (95, 105));
    s.handle_first(None);
    assert_eq!(values(&s), (95, 100));
}

#[test]
fn apply_scroll_clamps_without_separating() {
    let mut s = DoubleSlider::new(10, 20, 0, 100);
    s.apply_scroll(-5, 130);
    assert_eq!(values(&s), (0, 100));
    let mut s = DoubleSlider::new(10, 20, 0, 100);
    s.apply_scroll(60, 40);
    assert_eq!(values(&s), (60, 40));
}

#[test]
fn steps_keep_every_setting() {
    let red = Color32::from_rgb(255, 0, 0);
    let mut s = DoubleSlider::new(1, 9, 1, 10)
        .separation_distance(3)
        .logarithmic(true)
        .invert_highlighting(true)
        .color(red);
    s.handle_first(Some(8));
    s.handle_second(Some(2));
    s.apply_scroll(4, 7);
    assert_eq!(s.separation(), 3);
    assert!(s.is_logarithmic());
    assert!(s.highlighting_is_inverted());
    assert_eq!(s.chosen_color(), Some(red));
    assert_eq!((s.range_start(), s.range_end()), (1, 10));
}

#[test]
fn orientation_variants_compare() {
    assert_eq!(SliderOrientation::Horizontal, SliderOrientation::Horizontal);
    assert_ne!(SliderOrientation::Horizontal, SliderOrientation::Vertical);
    let copy = SliderOrientation::Vertical;
    assert_eq!(copy, SliderOrientation::Vertical);
}

#[test]
fn one_frame_settles_values_apart_and_in_range() {
    let mut s = DoubleSlider::new(40, 45, 0, 100).separation_distance(10);
    s.handle_first(Some(95));
    s.handle_second(None);
    assert_eq!(values(&s), (90, 100));
    let mut s = DoubleSlider::new(40, 45, 0, 100)
        .separation_distance(10)
        .push_by_dragging(false);
    s.handle_first(Some(95));
    s.handle_second(None);
    assert_eq!(values(&s), (35, 45));
}

#[test]
fn values_beyond_i64_are_kept() {
    let big = u64::MAX as i128;
    let mut s = DoubleSlider::new(big - 10, big, 0, big);
    s.handle_first(None);
    assert_eq!(values(&s), (big - 10, big));
    s.handle_first(Some(big));
    assert_eq!(values(&s), (big, big));
}
