use vstd::prelude::*;

verus! {

/// Specifies the orientation of a slider.
#[derive(Clone, Copy, Debug, PartialEq, Eq, Hash, Structural)]
pub enum SliderOrientation {
    Horizontal,
    Vertical,
}

} // verus!
