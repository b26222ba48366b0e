use serde_constant::boolean::ConstBool;
use serde_constant::character::ConstChar;
use serde_constant::error::{ConstError, Unexpected};
use serde_constant::integer::{
    ConstI128, ConstI16, ConstI32, ConstI64, ConstI8, ConstU128, ConstU16, ConstU32, ConstU64,
    ConstU8,
};
use serde_constant::observe::IntObserved;

fn value_mismatch(e: ConstError) -> (Unexpected, String) {
    match e {
        ConstError::ValueMismatch { observed, expected } => (observed, expected),
        ConstError::LengthMismatch { .. } => panic!("expected a value mismatch"),
    }
}

fn length_mismatch(e: ConstError) -> (usize, String) {
    match e {
        ConstError::LengthMismatch { len, expected } => (len, expected),
        ConstError::ValueMismatch { .. } => panic!("expected a length mismatch"),
    }
}

#[test]
fn bool_true_scenario() {
    let c = ConstBool::new(true);
    assert!(c.validate(true).is_ok());
    let (observed, expected) = value_mismatch(c.validate(false).unwrap_err());
    assert!(matches!(observed, Unexpected::Bool(false)));
    assert_eq!(expected, "true");
}

#[test]
fn bool_false_scenario() {
    let c = ConstBool::new(false);
    assert!(c.validate(false).is_ok());
    let (observed, expected) = value_mismatch(c.validate(true).unwrap_err());
    assert!(matches!(observed, Unexpected::Bool(true)));
    assert_eq!(expected, "false");
}

#[test]
fn untagged_alternative_selection() {
    // Two alternatives tagged by constants 1 and 2: an observed 2 must fail
    // the first and select the second, whatever width it arrived in.
    let alternatives = [ConstI64::new(1), ConstI64::new(2)];
    let observations = [IntObserved::Signed(2), IntObserved::Unsigned(2)];
    for obs in observations {
        let selected = alternatives.iter().position(|a| a.validate(obs).is_ok());
        assert_eq!(selected, Some(1));
    }
    assert!(alternatives[0].validate(IntObserved::Signed(1)).is_ok());
}

#[test]
fn cross_representation_success() {
    // Constant declared signed 64-bit, observed unsigned: equal magnitude
    // still validates.
    assert!(ConstI64::new(2).validate(IntObserved::Unsigned(2)).is_ok());
    assert!(ConstU16::new(7).validate(IntObserved::Signed(7)).is_ok());
    assert!(ConstI8::new(-3).validate(IntObserved::Signed(-3)).is_ok());
    assert!(ConstU128::new(0).validate(IntObserved::Signed(0)).is_ok());
}

#[test]
fn magnitude_mismatch_reports_describer_output() {
    let c = ConstI32::new(41);
    let (observed, expected) = value_mismatch(c.validate(IntObserved::Signed(42)).unwrap_err());
    assert!(matches!(observed, Unexpected::Signed(42)));
    assert_eq!(expected, c.describe());
    assert_eq!(expected, "41");
}

#[test]
fn negative_vs_unsigned_fails_cleanly() {
    // Constant unsigned 8-bit 200, observed -5: a mismatch reporting the
    // negative observation, never a wraparound to 251.
    let c = ConstU8::new(200);
    let (observed, expected) = value_mismatch(c.validate(IntObserved::Signed(-5)).unwrap_err());
    assert!(matches!(observed, Unexpected::Signed(-5)));
    assert_eq!(expected, "200");
    let (observed, _) = value_mismatch(c.validate(IntObserved::Signed(i128::MIN)).unwrap_err());
    assert!(matches!(observed, Unexpected::Signed(i128::MIN)));
}

#[test]
fn large_unsigned_vs_signed_fails_without_truncation() {
    // u128::MAX truncates to -1 as a 128-bit signed value; the validator must
    // classify it as unequal instead.
    let c = ConstI64::new(-1);
    let (observed, _) = value_mismatch(c.validate(IntObserved::Unsigned(u128::MAX)).unwrap_err());
    assert!(matches!(observed, Unexpected::Unsigned(u128::MAX)));
    let big = (i128::MAX as u128) + 1;
    let (observed, _) = value_mismatch(
        ConstI128::new(i128::MIN).validate(IntObserved::Unsigned(big)).unwrap_err(),
    );
    assert!(matches!(observed, Unexpected::Unsigned(b) if b == big));
}

#[test]
fn unsigned_observation_keeps_its_representation() {
    let c = ConstU64::new(5);
    let (observed, _) = value_mismatch(c.validate(IntObserved::Unsigned(6)).unwrap_err());
    assert!(matches!(observed, Unexpected::Unsigned(6)));
    let (observed, _) = value_mismatch(c.validate(IntObserved::Signed(6)).unwrap_err());
    assert!(matches!(observed, Unexpected::Signed(6)));
}

#[test]
fn char_scenario() {
    let c = ConstChar::new('x');
    assert!(c.validate_text("x").is_ok());
    let (len, expected) = length_mismatch(c.validate_text("").unwrap_err());
    assert_eq!(len, 0);
    assert_eq!(expected, "'x'");
    let (len, _) = length_mismatch(c.validate_text("xy").unwrap_err());
    assert_eq!(len, 2);
    let (observed, expected) = value_mismatch(c.validate_char('y').unwrap_err());
    assert!(matches!(observed, Unexpected::Char('y')));
    assert_eq!(expected, "'x'");
}

#[test]
fn char_text_single_character_follows_char_comparison() {
    let c = ConstChar::new('x');
    let (observed, _) = value_mismatch(c.validate_text("y").unwrap_err());
    assert!(matches!(observed, Unexpected::Char('y')));
    assert!(ConstChar::new('é').validate_text("é").is_ok());
    let (len, _) = length_mismatch(ConstChar::new('é').validate_text("éé").unwrap_err());
    assert_eq!(len, 2);
}

#[test]
fn round_trip_every_family() {
    assert!(ConstBool::new(true).validate(ConstBool::new(true).emit()).is_ok());
    assert!(ConstBool::new(false).validate(ConstBool::new(false).emit()).is_ok());
    assert!(ConstChar::new('q').validate_char(ConstChar::new('q').emit()).is_ok());

    let i8c = ConstI8::new(-128);
    assert!(i8c.validate(IntObserved::Signed(i8c.emit() as i128)).is_ok());
    let i16c = ConstI16::new(-30000);
    assert!(i16c.validate(IntObserved::Signed(i16c.emit() as i128)).is_ok());
    let i32c = ConstI32::new(2_000_000_000);
    assert!(i32c.validate(IntObserved::Signed(i32c.emit() as i128)).is_ok());
    let i64c = ConstI64::new(i64::MIN);
    assert!(i64c.validate(IntObserved::Signed(i64c.emit() as i128)).is_ok());
    let i128c = ConstI128::new(i128::MIN);
    assert!(i128c.validate(IntObserved::Signed(i128c.emit())).is_ok());

    let u8c = ConstU8::new(255);
    assert!(u8c.validate(IntObserved::Unsigned(u8c.emit() as u128)).is_ok());
    let u16c = ConstU16::new(65535);
    assert!(u16c.validate(IntObserved::Unsigned(u16c.emit() as u128)).is_ok());
    let u32c = ConstU32::new(4_000_000_000);
    assert!(u32c.validate(IntObserved::Unsigned(u32c.emit() as u128)).is_ok());
    let u64c = ConstU64::new(u64::MAX);
    assert!(u64c.validate(IntObserved::Unsigned(u64c.emit() as u128)).is_ok());
    let u128c = ConstU128::new(u128::MAX);
    assert!(u128c.validate(IntObserved::Unsigned(u128c.emit())).is_ok());
}

#[test]
fn validation_returns_the_wrapper() {
    let c = ConstI64::new(2);
    assert_eq!(c.validate(IntObserved::Unsigned(2)).unwrap(), c);
    let b = ConstBool::new(true);
    assert_eq!(b.validate(true).unwrap(), b);
    let ch = ConstChar::new('x');
    assert_eq!(ch.validate_text("x").unwrap(), ch);
}
