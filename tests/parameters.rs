use pitch_shifter::parameters::{can_be_automated, Control};

#[test]
fn from_maps_indices_in_declared_order() {
    assert_eq!(Control::from(0), Control::Pitch);
    assert_eq!(Control::from(1), Control::PitchFine);
    assert_eq!(Control::from(2), Control::Mix);
}

#[test]
fn index_inverts_from() {
    for i in 0..3 {
        assert_eq!(Control::from(i).index(), i);
    }
}

#[test]
fn checked_from_rejects_out_of_range() {
    assert_eq!(Control::checked_from(-1), None);
    assert_eq!(Control::checked_from(3), None);
    assert_eq!(Control::checked_from(i32::MAX), None);
    assert_eq!(Control::checked_from(2), Some(Control::Mix));
}

#[test]
fn names_and_labels() {
    assert_eq!(Control::Pitch.name(), "Pitch");
    assert_eq!(Control::PitchFine.name(), "Pitch (Fine)");
    assert_eq!(Control::Mix.name(), "Mix");
    assert_eq!(Control::Pitch.label(), "cents");
    assert_eq!(Control::PitchFine.label(), "cents");
    assert_eq!(Control::Mix.label(), "%");
}

#[test]
fn automation_only_for_declared_parameters() {
    assert!(can_be_automated(0));
    assert!(can_be_automated(2));
    assert!(!can_be_automated(3));
    assert!(!can_be_automated(-1));
    assert_eq!(Control::VARIANT_COUNT, 3);
}
