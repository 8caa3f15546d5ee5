# egui_double_slider

A double slider for egui: two numbers chosen inside one range.

- `src/` is the verified library: `SliderOrientation`, and `DoubleSlider`, which
  holds two integer values with the slider's settings and the steps that settle
  them after a handle drag or a scroll (separation distance, pushing or
  holding back, clamping to a range given either way round). `src/laws.rs`
  states and proves what those steps keep.
- `app/` is the egui widget: drawing, pointer and scroll input, and the
  float mapping between values and pixels. For integral values it settles
  them through the library.
