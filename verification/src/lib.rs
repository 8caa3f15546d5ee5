//! A double slider: two numbers chosen inside one range, kept apart by a
//! separation distance, with the rules that settle them after each drag or
//! scroll stated and proved.

pub mod orientation;
pub mod paint;
pub mod slider;
pub mod laws;

pub use orientation::SliderOrientation;
pub use slider::DoubleSlider;
