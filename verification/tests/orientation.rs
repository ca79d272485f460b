use zencodec::{Orientation, OrientationHint};

#[test]
fn orientation_hint_default_is_preserve() {
    assert_eq!(OrientationHint::default(), OrientationHint::Preserve);
}

#[test]
fn orientation_hint_variants() {
    let _ = OrientationHint::Preserve;
    let _ = OrientationHint::Correct;
    let _ = OrientationHint::CorrectAndTransform(Orientation::Rotate90);
    let _ = OrientationHint::ExactTransform(Orientation::Rotate180);
}
