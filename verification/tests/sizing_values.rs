use container_layout::geom::RelAbs;
use container_layout::sizing::{Sizing, Smart, Spacing, Value};

#[test]
fn relative_resolution_exact() {
    // ratio 500 permille of base 200 is 100, plus offset 7.
    let rel = RelAbs { ratio: 500, abs: 7 };
    assert_eq!(rel.relative_to(200), 107);
    // the full ratio reproduces the base exactly.
    let full = RelAbs { ratio: 1000, abs: 0 };
    assert_eq!(full.relative_to(200), 200);
    // a pure offset ignores the base.
    let off = RelAbs { ratio: 0, abs: -25 };
    assert_eq!(off.relative_to(999), -25);
    // division rounds toward zero, also for negative products.
    let neg = RelAbs { ratio: -500, abs: 0 };
    assert_eq!(neg.relative_to(3), -1);
    let pos = RelAbs { ratio: 500, abs: 0 };
    assert_eq!(pos.relative_to(3), 1);
}

#[test]
fn relative_resolution_zero() {
    let zero = RelAbs::zero();
    assert!(zero.is_zero());
    assert_eq!(zero.relative_to(12345), 0);
    assert!(!RelAbs { ratio: 1, abs: 0 }.is_zero());
    assert!(!RelAbs { ratio: 0, abs: 1 }.is_zero());
}

#[test]
fn is_fractional() {
    assert!(Sizing::Fr(1).is_fractional());
    assert!(!Sizing::Auto.is_fractional());
    assert!(!Sizing::Rel(RelAbs { ratio: 1000, abs: 0 }).is_fractional());
}

#[test]
fn encode() {
    assert_eq!(Sizing::Auto.encode(), Value::Auto);
    let rel = RelAbs { ratio: 250, abs: 4 };
    assert_eq!(Sizing::Rel(rel).encode(), Value::Relative(rel));
    assert_eq!(Sizing::Fr(3).encode(), Value::Fraction(3));
}

#[test]
fn encode_slice() {
    let rel = RelAbs { ratio: 100, abs: 0 };
    let values = [Sizing::Auto, Sizing::Rel(rel), Sizing::Fr(2)];
    let encoded = Sizing::encode_slice(&values);
    match encoded {
        Value::Array(items) => {
            assert_eq!(items.len(), 3);
            assert_eq!(items[0], Value::Auto);
            assert_eq!(items[1], Value::Relative(rel));
            assert_eq!(items[2], Value::Fraction(2));
        }
        other => panic!("expected an array, got {:?}", other),
    }
}

#[test]
fn encode_slice_empty() {
    let encoded = Sizing::encode_slice(&[]);
    match encoded {
        Value::Array(items) => assert!(items.is_empty()),
        other => panic!("expected an array, got {:?}", other),
    }
}

#[test]
fn spacing_encode() {
    let rel = RelAbs { ratio: 0, abs: 9 };
    assert_eq!(Spacing::Rel(rel).encode(), Value::Relative(rel));
    assert_eq!(Spacing::Fr(5).encode(), Value::Fraction(5));
}

#[test]
fn sizing_default_is_auto() {
    assert_eq!(Sizing::default(), Sizing::Auto);
}

#[test]
fn sizing_from_spacing() {
    let rel = RelAbs { ratio: 10, abs: 2 };
    assert_eq!(Sizing::from(Spacing::Rel(rel)), Sizing::Rel(rel));
    assert_eq!(Sizing::from(Spacing::Fr(7)), Sizing::Fr(7));
}

#[test]
fn smart_is_auto() {
    assert!(Smart::<RelAbs>::Auto.is_auto());
    assert!(!Smart::Custom(RelAbs::zero()).is_auto());
}
