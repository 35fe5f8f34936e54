//! Cascading styles: an ordered chain of style scopes, nearest-first, with
//! two retrieval modes.
//!
//! *Resolve* reads the nearest scope that sets a property and returns its
//! value. *Fold* visits every scope from nearest to farthest and combines all
//! set values into one; for per-side and per-corner properties the combination
//! prefers the nearest non-absent value for each side or corner
//! independently. Both modes are pure functions of the chain's contents:
//! reading has no side effect, and identical chains give identical results.

use vstd::prelude::*;
use crate::geom::{RelAbs, Sides, Corners};
use crate::sizing::Spacing;

verus! {

/// The default spacing placed above and below a block, in layout units.
pub const DEFAULT_BLOCK_SPACING: i64 = 12;

/// A solid paint, as an RGBA color word.
#[derive(Debug, Clone, Copy, PartialEq, Eq, Hash)]
pub struct Paint {
    /// The color, packed as `0xRRGGBBAA`.
    pub color: u32,
}

/// A fully determined stroke.
#[derive(Debug, Clone, Copy, PartialEq, Eq, Hash)]
pub struct Stroke {
    /// The stroke paint.
    pub paint: Paint,
    /// The stroke thickness, in layout units.
    pub thickness: i64,
}

/// A stroke with optional parts; unset parts take defaults.
#[derive(Debug, Clone, Copy, PartialEq, Eq, Hash)]
pub struct PartialStroke {
    /// The stroke paint, if given.
    pub paint: Option<Paint>,
    /// The stroke thickness, if given, in layout units.
    pub thickness: Option<i64>,
}

/// The stroke that a partial stroke completes to: black paint and unit
/// thickness where parts are unset.
pub open spec fn stroke_complete_spec(p: PartialStroke) -> Stroke {
    Stroke {
        paint: match p.paint {
            Some(paint) => paint,
            None => Paint { color: 0x000000ff },
        },
        thickness: match p.thickness {
            Some(t) => t,
            None => 1,
        },
    }
}

impl PartialStroke {
    /// Completes this stroke, filling unset parts with defaults.
    pub fn unwrap_or_default(self) -> (s: Stroke)
        ensures
            s == stroke_complete_spec(self),
    {
        Stroke {
            paint: match self.paint {
                Some(paint) => paint,
                None => Paint { color: 0x000000ff },
            },
            thickness: match self.thickness {
                Some(t) => t,
                None => 1,
            },
        }
    }
}

/// A vertical spacing requirement around a block.
#[derive(Debug, Clone, Copy, PartialEq, Eq, Hash)]
pub struct VSpacing {
    /// The spacing amount.
    pub amount: Spacing,
    /// Whether the spacing was set for this side specifically, taking
    /// precedence over a shared spacing amount.
    pub around: bool,
}

/// One scope of styles. A field holding `None` (or a side or corner holding
/// `None`) leaves the property unset in this scope, deferring to farther
/// scopes and ultimately to the property's default.
#[derive(Debug, Clone, Copy, PartialEq, Eq, Hash)]
pub struct StyleScope {
    /// The background fill; the inner option is the set value.
    pub fill: Option<Option<Paint>>,
    /// The border strokes, set per side; the innermost option is the set
    /// value for the side.
    pub stroke: Sides<Option<Option<PartialStroke>>>,
    /// The corner radii, set per corner, each relative to the shorter frame
    /// side.
    pub radius: Corners<Option<RelAbs>>,
    /// The inward padding of content, set per side, each relative to the
    /// region size on its axis.
    pub inset: Sides<Option<RelAbs>>,
    /// The outward expansion of decoration, set per side, each relative to
    /// the frame size on its axis.
    pub outset: Sides<Option<RelAbs>>,
    /// The baseline shift, relative to the frame height.
    pub baseline: Option<RelAbs>,
    /// The spacing above a block.
    pub above: Option<VSpacing>,
    /// The spacing below a block.
    pub below: Option<VSpacing>,
    /// Whether a block sticks to the one that follows it.
    pub sticky: Option<bool>,
}

/// The scope that sets nothing.
pub open spec fn scope_empty_spec() -> StyleScope {
    StyleScope {
        fill: None,
        stroke: Sides { left: None, top: None, right: None, bottom: None },
        radius: Corners { top_left: None, top_right: None, bottom_right: None, bottom_left: None },
        inset: Sides { left: None, top: None, right: None, bottom: None },
        outset: Sides { left: None, top: None, right: None, bottom: None },
        baseline: None,
        above: None,
        below: None,
        sticky: None,
    }
}

impl StyleScope {
    /// The scope that sets nothing.
    pub fn empty() -> (s: StyleScope)
        ensures
            s == scope_empty_spec(),
    {
        StyleScope {
            fill: None,
            stroke: Sides { left: None, top: None, right: None, bottom: None },
            radius: Corners {
                top_left: None,
                top_right: None,
                bottom_right: None,
                bottom_left: None,
            },
            inset: Sides { left: None, top: None, right: None, bottom: None },
            outset: Sides { left: None, top: None, right: None, bottom: None },
            baseline: None,
            above: None,
            below: None,
            sticky: None,
        }
    }
}

/// The nearest set value, or the farther result where unset.
pub open spec fn near_or<T>(near: Option<T>, far: T) -> T {
    match near {
        Some(v) => v,
        None => far,
    }
}

/// The default for unset relative lengths: zero.
pub open spec fn zero_rel() -> RelAbs {
    RelAbs { ratio: 0, abs: 0 }
}

/// The default vertical spacing requirement.
pub open spec fn default_vspacing() -> VSpacing {
    VSpacing {
        amount: Spacing::Rel(RelAbs { ratio: 0, abs: DEFAULT_BLOCK_SPACING }),
        around: false,
    }
}

/// Resolve mode for the fill: the nearest scope that sets it wins; unset
/// everywhere means no fill.
pub open spec fn fill_of(s: Seq<StyleScope>) -> Option<Paint>
    decreases s.len(),
{
    if s.len() == 0 {
        None
    } else {
        near_or(s[0].fill, fill_of(s.skip(1)))
    }
}

/// Fold mode for the stroke: for each side independently, the nearest scope
/// that sets that side wins; unset everywhere means no stroke on that side.
pub open spec fn stroke_of(s: Seq<StyleScope>) -> Sides<Option<PartialStroke>>
    decreases s.len(),
{
    if s.len() == 0 {
        Sides { left: None, top: None, right: None, bottom: None }
    } else {
        let far = stroke_of(s.skip(1));
        Sides {
            left: near_or(s[0].stroke.left, far.left),
            top: near_or(s[0].stroke.top, far.top),
            right: near_or(s[0].stroke.right, far.right),
            bottom: near_or(s[0].stroke.bottom, far.bottom),
        }
    }
}

/// Fold mode for the corner radii: per corner, nearest set value wins, with a
/// zero default.
pub open spec fn radius_of(s: Seq<StyleScope>) -> Corners<RelAbs>
    decreases s.len(),
{
    if s.len() == 0 {
        Corners {
            top_left: zero_rel(),
            top_right: zero_rel(),
            bottom_right: zero_rel(),
            bottom_left: zero_rel(),
        }
    } else {
        let far = radius_of(s.skip(1));
        Corners {
            top_left: near_or(s[0].radius.top_left, far.top_left),
            top_right: near_or(s[0].radius.top_right, far.top_right),
            bottom_right: near_or(s[0].radius.bottom_right, far.bottom_right),
            bottom_left: near_or(s[0].radius.bottom_left, far.bottom_left),
        }
    }
}

/// Fold mode for the inset: per side, nearest set value wins, with a zero
/// default.
pub open spec fn inset_of(s: Seq<StyleScope>) -> Sides<RelAbs>
    decreases s.len(),
{
    if s.len() == 0 {
        Sides { left: zero_rel(), top: zero_rel(), right: zero_rel(), bottom: zero_rel() }
    } else {
        let far = inset_of(s.skip(1));
        Sides {
            left: near_or(s[0].inset.left, far.left),
            top: near_or(s[0].inset.top, far.top),
            right: near_or(s[0].inset.right, far.right),
            bottom: near_or(s[0].inset.bottom, far.bottom),
        }
    }
}

/// Fold mode for the outset: per side, nearest set value wins, with a zero
/// default.
pub open spec fn outset_of(s: Seq<StyleScope>) -> Sides<RelAbs>
    decreases s.len(),
{
    if s.len() == 0 {
        Sides { left: zero_rel(), top: zero_rel(), right: zero_rel(), bottom: zero_rel() }
    } else {
        let far = outset_of(s.skip(1));
        Sides {
            left: near_or(s[0].outset.left, far.left),
            top: near_or(s[0].outset.top, far.top),
            right: near_or(s[0].outset.right, far.right),
            bottom: near_or(s[0].outset.bottom, far.bottom),
        }
    }
}

/// Resolve mode for the baseline shift: nearest set value wins, with a zero
/// default.
pub open spec fn baseline_of(s: Seq<StyleScope>) -> RelAbs
    decreases s.len(),
{
    if s.len() == 0 {
        zero_rel()
    } else {
        near_or(s[0].baseline, baseline_of(s.skip(1)))
    }
}

/// Resolve mode for the spacing above a block.
pub open spec fn above_of(s: Seq<StyleScope>) -> VSpacing
    decreases s.len(),
{
    if s.len() == 0 {
        default_vspacing()
    } else {
        near_or(s[0].above, above_of(s.skip(1)))
    }
}

/// Resolve mode for the spacing below a block.
pub open spec fn below_of(s: Seq<StyleScope>) -> VSpacing
    decreases s.len(),
{
    if s.len() == 0 {
        default_vspacing()
    } else {
        near_or(s[0].below, below_of(s.skip(1)))
    }
}

/// Resolve mode for the sticky flag.
pub open spec fn sticky_of(s: Seq<StyleScope>) -> bool
    decreases s.len(),
{
    if s.len() == 0 {
        false
    } else {
        near_or(s[0].sticky, sticky_of(s.skip(1)))
    }
}

/// An ordered chain of style scopes, nearest-first: index 0 is the scope
/// closest to the styled node.
#[derive(Debug, PartialEq, Eq)]
pub struct StyleChain {
    /// The scopes, nearest-first.
    pub scopes: Vec<StyleScope>,
}

impl Clone for StyleChain {
    /// Cloning keeps the scopes.
    fn clone(&self) -> (c: Self)
        ensures
            c.scopes@ == self.scopes@,
    {
        let mut scopes: Vec<StyleScope> = Vec::new();
        let mut i: usize = 0;
        while i < self.scopes.len()
            invariant
                i <= self.scopes@.len(),
                scopes@ == self.scopes@.take(i as int),
            decreases self.scopes@.len() - i,
        {
            scopes.push(self.scopes[i]);
            proof {
                assert(self.scopes@.take(i + 1)
                    =~= self.scopes@.take(i as int).push(self.scopes@[i as int]));
            }
            i = i + 1;
        }
        proof {
            assert(self.scopes@.take(self.scopes@.len() as int) =~= self.scopes@);
        }
        StyleChain { scopes }
    }
}

impl StyleChain {
    /// A chain over the given scopes, nearest-first.
    pub fn new(scopes: Vec<StyleScope>) -> (c: StyleChain)
        ensures
            c.scopes == scopes,
    {
        StyleChain { scopes }
    }

    /// The empty chain: every property reads as its default.
    pub fn empty() -> (c: StyleChain)
        ensures
            c.scopes@ == Seq::<StyleScope>::empty(),
    {
        StyleChain { scopes: Vec::new() }
    }

    /// Reads the fill (resolve mode).
    pub fn resolve_fill(&self) -> (r: Option<Paint>)
        ensures
            r == fill_of(self.scopes@),
    {
        let ghost s = self.scopes@;
        let mut acc: Option<Paint> = None;
        let mut i: usize = self.scopes.len();
        while i > 0
            invariant
                i <= s.len(),
                s == self.scopes@,
                acc == fill_of(s.skip(i as int)),
            decreases i,
        {
            i = i - 1;
            proof {
                assert(s.skip(i as int).skip(1) =~= s.skip(i + 1));
            }
            acc = match self.scopes[i].fill {
                Some(v) => v,
                None => acc,
            };
        }
        proof {
            assert(s.skip(0) =~= s);
        }
        acc
    }

    /// Reads the stroke (fold mode): per side, the nearest set value.
    pub fn fold_stroke(&self) -> (r: Sides<Option<PartialStroke>>)
        ensures
            r == stroke_of(self.scopes@),
    {
        let ghost s = self.scopes@;
        let mut acc: Sides<Option<PartialStroke>> = Sides {
            left: None,
            top: None,
            right: None,
            bottom: None,
        };
        let mut i: usize = self.scopes.len();
        while i > 0
            invariant
                i <= s.len(),
                s == self.scopes@,
                acc == stroke_of(s.skip(i as int)),
            decreases i,
        {
            i = i - 1;
            proof {
                assert(s.skip(i as int).skip(1) =~= s.skip(i + 1));
            }
            let sc = self.scopes[i].stroke;
            acc = Sides {
                left: match sc.left { Some(v) => v, None => acc.left },
                top: match sc.top { Some(v) => v, None => acc.top },
                right: match sc.right { Some(v) => v, None => acc.right },
                bottom: match sc.bottom { Some(v) => v, None => acc.bottom },
            };
        }
        proof {
            assert(s.skip(0) =~= s);
        }
        acc
    }

    /// Reads the corner radii (fold mode): per corner, the nearest set value,
    /// with a zero default.
    pub fn fold_radius(&self) -> (r: Corners<RelAbs>)
        ensures
            r == radius_of(self.scopes@),
    {
        let ghost s = self.scopes@;
        let mut acc: Corners<RelAbs> = Corners {
            top_left: RelAbs::zero(),
            top_right: RelAbs::zero(),
            bottom_right: RelAbs::zero(),
            bottom_left: RelAbs::zero(),
        };
        let mut i: usize = self.scopes.len();
        while i > 0
            invariant
                i <= s.len(),
                s == self.scopes@,
                acc == radius_of(s.skip(i as int)),
            decreases i,
        {
            i = i - 1;
            proof {
                assert(s.skip(i as int).skip(1) =~= s.skip(i + 1));
            }
            let sc = self.scopes[i].radius;
            acc = Corners {
                top_left: match sc.top_left { Some(v) => v, None => acc.top_left },
                top_right: match sc.top_right { Some(v) => v, None => acc.top_right },
                bottom_right: match sc.bottom_right { Some(v) => v, None => acc.bottom_right },
                bottom_left: match sc.bottom_left { Some(v) => v, None => acc.bottom_left },
            };
        }
        proof {
            assert(s.skip(0) =~= s);
        }
        acc
    }

    /// Reads the inset (fold mode): per side, the nearest set value, with a
    /// zero default.
    pub fn fold_inset(&self) -> (r: Sides<RelAbs>)
        ensures
            r == inset_of(self.scopes@),
    {
        let ghost s = self.scopes@;
        let mut acc: Sides<RelAbs> = Sides {
            left: RelAbs::zero(),
            top: RelAbs::zero(),
            right: RelAbs::zero(),
            bottom: RelAbs::zero(),
        };
        let mut i: usize = self.scopes.len();
        while i > 0
            invariant
                i <= s.len(),
                s == self.scopes@,
                acc == inset_of(s.skip(i as int)),
            decreases i,
        {
            i = i - 1;
            proof {
                assert(s.skip(i as int).skip(1) =~= s.skip(i + 1));
            }
            let sc = self.scopes[i].inset;
            acc = Sides {
                left: match sc.left { Some(v) => v, None => acc.left },
                top: match sc.top { Some(v) => v, None => acc.top },
                right: match sc.right { Some(v) => v, None => acc.right },
                bottom: match sc.bottom { Some(v) => v, None => acc.bottom },
            };
        }
        proof {
            assert(s.skip(0) =~= s);
        }
        acc
    }

    /// Reads the outset (fold mode): per side, the nearest set value, with a
    /// zero default.
    pub fn fold_outset(&self) -> (r: Sides<RelAbs>)
        ensures
            r == outset_of(self.scopes@),
    {
        let ghost s = self.scopes@;
        let mut acc: Sides<RelAbs> = Sides {
            left: RelAbs::zero(),
            top: RelAbs::zero(),
            right: RelAbs::zero(),
            bottom: RelAbs::zero(),
        };
        let mut i: usize = self.scopes.len();
        while i > 0
            invariant
                i <= s.len(),
                s == self.scopes@,
                acc == outset_of(s.skip(i as int)),
            decreases i,
        {
            i = i - 1;
            proof {
                assert(s.skip(i as int).skip(1) =~= s.skip(i + 1));
            }
            let sc = self.scopes[i].outset;
            acc = Sides {
                left: match sc.left { Some(v) => v, None => acc.left },
                top: match sc.top { Some(v) => v, None => acc.top },
                right: match sc.right { Some(v) => v, None => acc.right },
                bottom: match sc.bottom { Some(v) => v, None => acc.bottom },
            };
        }
        proof {
            assert(s.skip(0) =~= s);
        }
        acc
    }

    /// Reads the baseline shift (resolve mode), with a zero default.
    pub fn resolve_baseline(&self) -> (r: RelAbs)
        ensures
            r == baseline_of(self.scopes@),
    {
        let ghost s = self.scopes@;
        let mut acc: RelAbs = RelAbs::zero();
        let mut i: usize = self.scopes.len();
        while i > 0
            invariant
                i <= s.len(),
                s == self.scopes@,
                acc == baseline_of(s.skip(i as int)),
            decreases i,
        {
            i = i - 1;
            proof {
                assert(s.skip(i as int).skip(1) =~= s.skip(i + 1));
            }
            acc = match self.scopes[i].baseline {
                Some(v) => v,
                None => acc,
            };
        }
        proof {
            assert(s.skip(0) =~= s);
        }
        acc
    }

    /// Reads the spacing above a block (resolve mode). This value is consumed
    /// by the surrounding flow layer, not by the block's own layout.
    pub fn resolve_above(&self) -> (r: VSpacing)
        ensures
            r == above_of(self.scopes@),
    {
        let ghost s = self.scopes@;
        let mut acc: VSpacing = VSpacing {
            amount: Spacing::Rel(RelAbs { ratio: 0, abs: DEFAULT_BLOCK_SPACING }),
            around: false,
        };
        let mut i: usize = self.scopes.len();
        while i > 0
            invariant
                i <= s.len(),
                s == self.scopes@,
                acc == above_of(s.skip(i as int)),
            decreases i,
        {
            i = i - 1;
            proof {
                assert(s.skip(i as int).skip(1) =~= s.skip(i + 1));
            }
            acc = match self.scopes[i].above {
                Some(v) => v,
                None => acc,
            };
        }
        proof {
            assert(s.skip(0) =~= s);
        }
        acc
    }

    /// Reads the spacing below a block (resolve mode). This value is consumed
    /// by the surrounding flow layer, not by the block's own layout.
    pub fn resolve_below(&self) -> (r: VSpacing)
        ensures
            r == below_of(self.scopes@),
    {
        let ghost s = self.scopes@;
        let mut acc: VSpacing = VSpacing {
            amount: Spacing::Rel(RelAbs { ratio: 0, abs: DEFAULT_BLOCK_SPACING }),
            around: false,
        };
        let mut i: usize = self.scopes.len();
        while i > 0
            invariant
                i <= s.len(),
                s == self.scopes@,
                acc == below_of(s.skip(i as int)),
            decreases i,
        {
            i = i - 1;
            proof {
                assert(s.skip(i as int).skip(1) =~= s.skip(i + 1));
            }
            acc = match self.scopes[i].below {
                Some(v) => v,
                None => acc,
            };
        }
        proof {
            assert(s.skip(0) =~= s);
        }
        acc
    }

    /// Reads the sticky flag (resolve mode): whether a region break is
    /// forbidden between this block and the next. Consumed by the surrounding
    /// flow layer.
    pub fn resolve_sticky(&self) -> (r: bool)
        ensures
            r == sticky_of(self.scopes@),
    {
        let ghost s = self.scopes@;
        let mut acc: bool = false;
        let mut i: usize = self.scopes.len();
        while i > 0
            invariant
                i <= s.len(),
                s == self.scopes@,
                acc == sticky_of(s.skip(i as int)),
            decreases i,
        {
            i = i - 1;
            proof {
                assert(s.skip(i as int).skip(1) =~= s.skip(i + 1));
            }
            acc = match self.scopes[i].sticky {
                Some(v) => v,
                None => acc,
            };
        }
        proof {
            assert(s.skip(0) =~= s);
        }
        acc
    }
}

} // verus!
