use vstd::prelude::*;

verus! {

/// egui's colour type, carried through the slider's settings unread.
#[verifier::external_type_specification]
#[verifier::external_body]
pub struct ExColor32(egui::Color32);

/// egui's stroke type (width and colour), carried through the slider's
/// settings unread.
#[verifier::external_type_specification]
#[verifier::external_body]
pub struct ExStroke(egui::Stroke);

} // verus!
