use container_layout::geom::{RelAbs, Sides};
use container_layout::sizing::Spacing;
use container_layout::styles::{
    Paint, PartialStroke, StyleChain, StyleScope, VSpacing, DEFAULT_BLOCK_SPACING,
};
use container_layout::layout::BlockNode;

fn chain(scopes: Vec<StyleScope>) -> StyleChain {
    StyleChain::new(scopes)
}

#[test]
fn resolve_fill_nearest_wins() {
    let red = Paint { color: 0xff0000ff };
    let blue = Paint { color: 0x0000ffff };
    let mut near = StyleScope::empty();
    near.fill = Some(Some(red));
    let mut far = StyleScope::empty();
    far.fill = Some(Some(blue));
    assert_eq!(chain(vec![near, far]).resolve_fill(), Some(red));
    // an unset nearest scope defers to the farther one.
    assert_eq!(chain(vec![StyleScope::empty(), far]).resolve_fill(), Some(blue));
    // a scope may set the fill to none explicitly, shadowing a farther paint.
    let mut off = StyleScope::empty();
    off.fill = Some(None);
    assert_eq!(chain(vec![off, far]).resolve_fill(), None);
    // the default is no fill.
    assert_eq!(chain(vec![]).resolve_fill(), None);
}

#[test]
fn resolve_is_idempotent() {
    let mut near = StyleScope::empty();
    near.fill = Some(Some(Paint { color: 0x11223344 }));
    let c = chain(vec![near]);
    assert_eq!(c.resolve_fill(), c.resolve_fill());
    assert_eq!(c.fold_inset(), c.fold_inset());
}

#[test]
fn fold_inset_per_side_independent() {
    let ten = RelAbs { ratio: 0, abs: 10 };
    let twenty = RelAbs { ratio: 0, abs: 20 };
    let mut near = StyleScope::empty();
    near.inset.left = Some(ten);
    let mut far = StyleScope::empty();
    far.inset.left = Some(twenty);
    far.inset.right = Some(twenty);
    let folded = chain(vec![near, far]).fold_inset();
    // the nearest non-absent value wins for each side independently.
    assert_eq!(folded.left, ten);
    assert_eq!(folded.right, twenty);
    assert_eq!(folded.top, RelAbs { ratio: 0, abs: 0 });
    assert_eq!(folded.bottom, RelAbs { ratio: 0, abs: 0 });
}

#[test]
fn fold_stroke_per_side() {
    let partial = PartialStroke { paint: None, thickness: Some(3) };
    let mut near = StyleScope::empty();
    near.stroke.top = Some(Some(partial));
    let folded = chain(vec![near]).fold_stroke();
    assert_eq!(folded.top, Some(partial));
    assert_eq!(folded.left, None);
}

#[test]
fn partial_stroke_defaults() {
    let s = PartialStroke { paint: None, thickness: None }.unwrap_or_default();
    assert_eq!(s.paint.color, 0x000000ff);
    assert_eq!(s.thickness, 1);
    let p = Paint { color: 0xabcdef01 };
    let t = PartialStroke { paint: Some(p), thickness: Some(4) }.unwrap_or_default();
    assert_eq!(t.paint, p);
    assert_eq!(t.thickness, 4);
}

#[test]
fn resolve_baseline_default_zero() {
    assert!(chain(vec![StyleScope::empty()]).resolve_baseline().is_zero());
}

#[test]
fn resolve_sticky_default_false() {
    assert!(!chain(vec![]).resolve_sticky());
    let mut s = StyleScope::empty();
    s.sticky = Some(true);
    assert!(chain(vec![s]).resolve_sticky());
}

#[test]
fn resolve_above_below_default() {
    let c = chain(vec![StyleScope::empty()]);
    let above = c.resolve_above();
    assert_eq!(
        above.amount,
        Spacing::Rel(RelAbs { ratio: 0, abs: DEFAULT_BLOCK_SPACING })
    );
    assert!(!above.around);
    assert_eq!(c.resolve_below(), above);
}

#[test]
fn block_set_spacing_shared() {
    let mut scope = StyleScope::empty();
    let amount = Spacing::Rel(RelAbs { ratio: 0, abs: 30 });
    BlockNode::set(&mut scope, Some(amount), None, None);
    assert_eq!(scope.above, Some(VSpacing { amount, around: false }));
    assert_eq!(scope.below, Some(VSpacing { amount, around: false }));
}

#[test]
fn block_set_above_takes_precedence() {
    let mut scope = StyleScope::empty();
    let shared = Spacing::Rel(RelAbs { ratio: 0, abs: 30 });
    let above = Spacing::Fr(1);
    BlockNode::set(&mut scope, Some(shared), Some(above), None);
    assert_eq!(scope.above, Some(VSpacing { amount: above, around: true }));
    assert_eq!(scope.below, Some(VSpacing { amount: shared, around: false }));
}

#[test]
fn block_set_absent_leaves_scope() {
    let mut scope = StyleScope::empty();
    let earlier = VSpacing { amount: Spacing::Fr(2), around: true };
    scope.above = Some(earlier);
    BlockNode::set(&mut scope, None, None, Some(Spacing::Fr(3)));
    assert_eq!(scope.above, Some(earlier));
    assert_eq!(
        scope.below,
        Some(VSpacing { amount: Spacing::Fr(3), around: true })
    );
    // nothing else is touched.
    assert_eq!(scope.fill, None);
    assert_eq!(scope.inset, Sides { left: None, top: None, right: None, bottom: None });
}
