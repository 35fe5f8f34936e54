//! The container components and the layout pipeline.
//!
//! A container receives a style chain and a region descriptor, resolves its
//! own sizing, derives a child region descriptor, recurses into the wrapped
//! content, and applies the decoration pipeline — padding, fill and stroke,
//! baseline shift, metadata — to the frames that come back.
//!
//! The whole pipeline has a mathematical model: the `lay_*` specification
//! functions below. Every executable layout function returns exactly what its
//! model says, for every input; the laws in [`crate::laws`] are proved of the
//! model.

use vstd::prelude::*;
use crate::geom::{Point, Size, Axes, Sides, RelAbs, sat64, sat_sub, rel_to_spec};
use crate::sizing::{Sizing, Smart, Spacing};
use crate::styles::{
    StyleChain, StyleScope, VSpacing, Paint, Stroke, PartialStroke, stroke_complete_spec,
    fill_of, stroke_of, radius_of, inset_of, outset_of, baseline_of, zero_rel,
};
use crate::frame::{
    Frame, FrameV, FrameItemV, Fragment, frame_padded, frame_shifted, frame_decorated,
    frame_with_meta,
};
use crate::region::{Regions, RegionsV, one_region};

verus! {

/// Why a layout call failed.
#[derive(Debug, Clone, Copy, PartialEq, Eq, Hash)]
pub enum LayoutError {
    /// The wrapped content's own layout call failed; the code attributes the
    /// inner constraint that could not be met. Forwarded unchanged by every
    /// container.
    ContentFailure(u64),
    /// The content returned more than one frame where the single-region
    /// contract requires exactly one. A contract violation, never silently
    /// truncated.
    RegionCountMismatch,
}

/// A leaf with a natural size: it fills the region on expanded axes and
/// takes its natural size on the others.
#[derive(Debug, Clone, Copy, PartialEq, Eq, Hash)]
pub struct ElemNode {
    /// The natural size of the element.
    pub natural: Size,
    /// An opaque identity carried into the produced frame.
    pub id: u64,
}

/// A leaf that must break across regions: it consumes one region per piece
/// and produces one frame for each.
#[derive(Debug, PartialEq, Eq)]
pub struct MultiNode {
    /// The natural size of each piece; there is at least one.
    pub pieces: Vec<Size>,
}

/// An inline-level container that sizes content. Content takes the box's
/// own size or shrinks to its natural size.
#[derive(Debug, PartialEq, Eq)]
pub struct BoxNode {
    /// The content to be sized.
    pub body: Content,
    /// The box's width.
    pub width: Sizing,
    /// The box's height; fractional height is not supported.
    pub height: Smart<RelAbs>,
}

/// A block-level container: it spans the full set of offered regions and may
/// break across them.
#[derive(Debug, PartialEq, Eq)]
pub struct BlockNode {
    /// The contents of the block.
    pub body: Content,
}

/// A padding transform around content: the sides are resolved against the
/// region, the child is laid out in the shrunken regions, and each produced
/// frame is grown back by the padding.
#[derive(Debug, PartialEq, Eq)]
pub struct PadNode {
    /// The per-side padding.
    pub sides: Sides<RelAbs>,
    /// The padded content.
    pub body: Content,
}

/// A layoutable content node: a leaf, or a container wrapping further
/// content.
#[derive(Debug, PartialEq, Eq)]
pub enum Content {
    /// A leaf with a natural size.
    Elem(ElemNode),
    /// A leaf that breaks across regions, one frame per piece.
    Multi(Box<MultiNode>),
    /// Content whose layout always fails, standing for an inner constraint
    /// that cannot be met; the code attributes the failure.
    Fail(u64),
    /// A box container.
    Boxed(Box<BoxNode>),
    /// A block container.
    Blocked(Box<BlockNode>),
    /// A padding transform.
    Padded(Box<PadNode>),
}

/// Well-formed content: every multi-piece leaf has at least one piece.
pub open spec fn content_wf(c: Content) -> bool
    decreases c,
{
    match c {
        Content::Elem(_) => true,
        Content::Multi(m) => m.pieces@.len() >= 1,
        Content::Fail(_) => true,
        Content::Boxed(b) => content_wf(b.body),
        Content::Blocked(b) => content_wf(b.body),
        Content::Padded(p) => content_wf(p.body),
    }
}

/// The empty content: a leaf of natural size zero.
pub open spec fn empty_content() -> Content {
    Content::Elem(ElemNode { natural: Size { x: 0, y: 0 }, id: 0 })
}

/// Whether every side of a per-side relative length is zero.
pub open spec fn sides_zero(s: Sides<RelAbs>) -> bool {
    s.left == zero_rel() && s.top == zero_rel() && s.right == zero_rel() && s.bottom == zero_rel()
}

/// A per-side partial stroke completed to concrete strokes.
pub open spec fn strokes_complete(s: Sides<Option<PartialStroke>>) -> Sides<Option<Stroke>> {
    Sides {
        left: match s.left {
            Some(p) => Some(stroke_complete_spec(p)),
            None => None,
        },
        top: match s.top {
            Some(p) => Some(stroke_complete_spec(p)),
            None => None,
        },
        right: match s.right {
            Some(p) => Some(stroke_complete_spec(p)),
            None => None,
        },
        bottom: match s.bottom {
            Some(p) => Some(stroke_complete_spec(p)),
            None => None,
        },
    }
}

/// Whether a fill or any stroke side specifies a visible decoration.
pub open spec fn decor_visible(fill: Option<Paint>, stroke: Sides<Option<Stroke>>) -> bool {
    fill is Some || stroke.left is Some || stroke.top is Some || stroke.right is Some
        || stroke.bottom is Some
}

/// An optional concrete size, or the region's own size as fallback.
pub open spec fn size_or(o: Option<i64>, fallback: i64) -> i64 {
    match o {
        Some(v) => v,
        None => fallback,
    }
}

/// The frame a sized leaf produces in one region: the region size on
/// expanded axes, the natural size on the others; the baseline sits at the
/// bottom edge.
pub open spec fn elem_frame(natural: Size, id: u64, region: Size, expand: Axes<bool>) -> FrameV {
    let size = Size {
        x: if expand.x {
            region.x
        } else {
            natural.x
        },
        y: if expand.y {
            region.y
        } else {
            natural.y
        },
    };
    FrameV {
        size,
        baseline: size.y,
        items: seq![(Point { x: 0, y: 0 }, FrameItemV::Element(id))],
    }
}

/// The frames a multi-piece leaf produces: one per piece, sized like a
/// sized leaf against the piece's region.
pub open spec fn multi_frames(pieces: Seq<Size>, r: RegionsV) -> Seq<FrameV> {
    Seq::new(
        pieces.len(),
        |i: int|
            {
                let reg = r.at(i);
                let size = Size {
                    x: if r.expand.x {
                        reg.x
                    } else {
                        pieces[i].x
                    },
                    y: if r.expand.y {
                        reg.y
                    } else {
                        pieces[i].y
                    },
                };
                FrameV { size, baseline: size.y, items: Seq::empty() }
            },
    )
}

/// The decoration-and-metadata step applied to one frame of a block: a
/// visible fill or stroke is prepended, then the style context is attached.
pub open spec fn block_decorate(f: FrameV, ch: Seq<StyleScope>) -> FrameV {
    let fill = fill_of(ch);
    let stroke = strokes_complete(stroke_of(ch));
    let decorated = if decor_visible(fill, stroke) {
        frame_decorated(f, fill, stroke, outset_of(ch), radius_of(ch))
    } else {
        f
    };
    frame_with_meta(decorated, ch)
}

/// What laying out content yields: one frame per consumed region, or the
/// failure, forwarded unchanged.
pub open spec fn lay_content(c: Content, ch: Seq<StyleScope>, r: RegionsV) -> Result<
    Seq<FrameV>,
    LayoutError,
>
    decreases c, 0int,
{
    match c {
        Content::Elem(e) => Ok(seq![elem_frame(e.natural, e.id, r.first(), r.expand)]),
        Content::Multi(m) => Ok(multi_frames(m.pieces@, r)),
        Content::Fail(code) => Err(LayoutError::ContentFailure(code)),
        Content::Boxed(b) => lay_box(*b, ch, r),
        Content::Blocked(b) => lay_block(*b, ch, r),
        Content::Padded(p) => lay_padded(p.sides, p.body, ch, r),
    }
}

/// What the padding transform yields: the sides resolve against the base
/// size (or the first region where the base is absent), every region
/// shrinks by them, the child lays out there, and every produced frame is
/// grown back.
pub open spec fn lay_padded(
    sides: Sides<RelAbs>,
    body: Content,
    ch: Seq<StyleScope>,
    r: RegionsV,
) -> Result<Seq<FrameV>, LayoutError>
    decreases body, 1int,
{
    let bx = size_or(r.base.x, r.first().x);
    let by = size_or(r.base.y, r.first().y);
    let left = rel_to_spec(sides.left, bx);
    let top = rel_to_spec(sides.top, by);
    let right = rel_to_spec(sides.right, bx);
    let bottom = rel_to_spec(sides.bottom, by);
    let inner = RegionsV {
        sizes: r.sizes.map(
            |i: int, s: Size|
                Size { x: sat64(sat64(s.x - left) - right), y: sat64(sat64(s.y - top) - bottom) },
        ),
        base: Axes {
            x: match r.base.x {
                Some(v) => Some(sat64(sat64(v - left) - right)),
                None => None,
            },
            y: match r.base.y {
                Some(v) => Some(sat64(sat64(v - top) - bottom)),
                None => None,
            },
        },
        expand: r.expand,
    };
    match lay_content(body, ch, inner) {
        Ok(frames) => Ok(
            frames.map(|i: int, f: FrameV| frame_padded(f, left, top, right, bottom)),
        ),
        Err(e) => Err(e),
    }
}

/// The concrete-or-absent size a box resolves to on the horizontal axis.
pub open spec fn box_width(width: Sizing, r: RegionsV) -> Option<i64> {
    match width {
        Sizing::Auto => None,
        Sizing::Rel(rel) => match r.base.x {
            Some(b) => Some(rel_to_spec(rel, b)),
            None => None,
        },
        Sizing::Fr(_) => Some(r.first().x),
    }
}

/// The concrete-or-absent size a box resolves to on the vertical axis.
pub open spec fn box_height(height: Smart<RelAbs>, r: RegionsV) -> Option<i64> {
    match height {
        Smart::Auto => None,
        Smart::Custom(rel) => match r.base.y {
            Some(b) => Some(rel_to_spec(rel, b)),
            None => None,
        },
    }
}

/// What a box yields: its sizing resolves to a single child region — sized
/// by the resolved size with the region size as fallback, expanded on every
/// non-auto axis —, the content lays out there (padded where the inset is
/// set) and must return exactly one frame, whose baseline is then shifted,
/// which is then decorated where fill or stroke are visible, and which
/// carries the style context as metadata.
pub open spec fn lay_box(b: BoxNode, ch: Seq<StyleScope>, r: RegionsV) -> Result<
    Seq<FrameV>,
    LayoutError,
>
    decreases b.body, 2int,
{
    let size = Size {
        x: size_or(box_width(b.width, r), r.first().x),
        y: size_or(box_height(b.height, r), r.first().y),
    };
    let expand = Axes {
        x: r.expand.x || !(b.width is Auto),
        y: r.expand.y || !(b.height is Auto),
    };
    let pod = one_region(size, expand);
    let inset = inset_of(ch);
    let sub = if sides_zero(inset) {
        lay_content(b.body, ch, pod)
    } else {
        lay_padded(inset, b.body, ch, pod)
    };
    match sub {
        Ok(frames) => {
            if frames.len() != 1 {
                Err(LayoutError::RegionCountMismatch)
            } else {
                let shift = rel_to_spec(baseline_of(ch), frames[0].size.y);
                let shifted = if shift != 0 {
                    frame_shifted(frames[0], shift)
                } else {
                    frames[0]
                };
                Ok(seq![block_decorate(shifted, ch)])
            }
        },
        Err(e) => Err(e),
    }
}

/// What a block yields: the content lays out across the unmodified
/// multi-region descriptor (padded where the inset is set), and every
/// returned frame is decorated and tagged independently, as if it were a
/// standalone box; the frame count is unchanged.
pub open spec fn lay_block(b: BlockNode, ch: Seq<StyleScope>, r: RegionsV) -> Result<
    Seq<FrameV>,
    LayoutError,
>
    decreases b.body, 2int,
{
    let inset = inset_of(ch);
    let sub = if sides_zero(inset) {
        lay_content(b.body, ch, r)
    } else {
        lay_padded(inset, b.body, ch, r)
    };
    match sub {
        Ok(frames) => Ok(frames.map(|i: int, f: FrameV| block_decorate(f, ch))),
        Err(e) => Err(e),
    }
}

/// The view of a layout result.
pub open spec fn frag_view(out: Result<Fragment, LayoutError>) -> Result<
    Seq<FrameV>,
    LayoutError,
> {
    match out {
        Ok(f) => Ok(f@),
        Err(e) => Err(e),
    }
}

/// Resolves a per-axis sizing against a region descriptor: an automatic
/// axis is absent (the content decides), a relative axis resolves against
/// the base size — absent where the base itself is unresolved —, and a
/// fractional width takes the full current region width.
pub fn resolve_sizing(width: Sizing, height: Smart<RelAbs>, regions: &Regions) -> (r: Axes<
    Option<i64>,
>)
    requires
        regions@.wf(),
    ensures
        r.x == box_width(width, regions@),
        r.y == box_height(height, regions@),
{
    let first = regions.first();
    let x: Option<i64> = match width {
        Sizing::Auto => None,
        Sizing::Rel(rel) => match regions.base.x {
            Some(b) => Some(rel.relative_to(b)),
            None => None,
        },
        Sizing::Fr(_) => Some(first.x),
    };
    let y: Option<i64> = match height {
        Smart::Auto => None,
        Smart::Custom(rel) => match regions.base.y {
            Some(b) => Some(rel.relative_to(b)),
            None => None,
        },
    };
    Axes { x, y }
}

/// Whether every side of a per-side relative length is zero.
fn sides_is_zero(s: &Sides<RelAbs>) -> (b: bool)
    ensures
        b == sides_zero(*s),
{
    s.left.is_zero() && s.top.is_zero() && s.right.is_zero() && s.bottom.is_zero()
}

/// Completes the folded per-side strokes.
fn complete_strokes(s: Sides<Option<PartialStroke>>) -> (r: Sides<Option<Stroke>>)
    ensures
        r == strokes_complete(s),
{
    Sides {
        left: match s.left {
            Some(p) => Some(p.unwrap_or_default()),
            None => None,
        },
        top: match s.top {
            Some(p) => Some(p.unwrap_or_default()),
            None => None,
        },
        right: match s.right {
            Some(p) => Some(p.unwrap_or_default()),
            None => None,
        },
        bottom: match s.bottom {
            Some(p) => Some(p.unwrap_or_default()),
            None => None,
        },
    }
}

/// Whether a fill or any stroke side specifies a visible decoration.
fn is_visible(fill: &Option<Paint>, stroke: &Sides<Option<Stroke>>) -> (b: bool)
    ensures
        b == decor_visible(*fill, *stroke),
{
    fill.is_some() || stroke.left.is_some() || stroke.top.is_some() || stroke.right.is_some()
        || stroke.bottom.is_some()
}

/// Decorates and tags one frame as the block pipeline does.
fn decorate_frame(frame: &mut Frame, styles: &StyleChain)
    ensures
        final(frame)@ == block_decorate(old(frame)@, styles.scopes@),
{
    let fill = styles.resolve_fill();
    let stroke = complete_strokes(styles.fold_stroke());
    if is_visible(&fill, &stroke) {
        let outset = styles.fold_outset();
        let radius = styles.fold_radius();
        frame.fill_and_stroke(fill, stroke, outset, radius);
    }
    frame.meta(styles);
}

impl Content {
    /// The empty content: a leaf of natural size zero.
    pub fn empty() -> (c: Content)
        ensures
            c == empty_content(),
            content_wf(c),
    {
        Content::Elem(ElemNode { natural: Size { x: 0, y: 0 }, id: 0 })
    }

    /// Wraps this content in a padding transform with the given per-side
    /// lengths. The original value is consumed, not mutated; the result is a
    /// new content value.
    pub fn padded(self, sides: Sides<RelAbs>) -> (c: Content)
        ensures
            c is Padded,
            c->Padded_0.sides == sides,
            c->Padded_0.body == self,
            content_wf(self) ==> content_wf(c),
    {
        Content::Padded(Box::new(PadNode { sides, body: self }))
    }

    /// Lays this content out in the given regions: one frame per consumed
    /// region, or the failure the content raised.
    pub fn layout(&self, styles: &StyleChain, regions: &Regions) -> (out: Result<
        Fragment,
        LayoutError,
    >)
        requires
            content_wf(*self),
            regions@.wf(),
        ensures
            frag_view(out) == lay_content(*self, styles.scopes@, regions@),
        decreases *self, 0int,
    {
        match self {
            Content::Elem(e) => {
                let region = regions.first();
                let expand = regions.expand;
                let size = Size {
                    x: if expand.x {
                        region.x
                    } else {
                        e.natural.x
                    },
                    y: if expand.y {
                        region.y
                    } else {
                        e.natural.y
                    },
                };
                let frame = Frame::with_element(size, e.id);
                let out = Fragment::frame(frame);
                proof {
                    assert(frame@ == elem_frame(e.natural, e.id, regions@.first(), regions@.expand));
                    assert(out@ =~= seq![elem_frame(e.natural, e.id, regions@.first(), regions@.expand)]);
                }
                Ok(out)
            },
            Content::Multi(m) => {
                let ghost model = multi_frames(m.pieces@, regions@);
                let mut frames: Vec<Frame> = Vec::new();
                let mut i: usize = 0;
                while i < m.pieces.len()
                    invariant
                        i <= m.pieces@.len(),
                        model == multi_frames(m.pieces@, regions@),
                        regions@.wf(),
                        frames@.map(|j: int, f: Frame| f@) =~= model.take(i as int),
                    decreases m.pieces@.len() - i,
                {
                    let reg = regions.at(i);
                    let piece = m.pieces[i];
                    let size = Size {
                        x: if regions.expand.x {
                            reg.x
                        } else {
                            piece.x
                        },
                        y: if regions.expand.y {
                            reg.y
                        } else {
                            piece.y
                        },
                    };
                    let frame = Frame::soft(size);
                    proof {
                        assert(frame@ == model[i as int]);
                        assert(model.take(i + 1) =~= model.take(i as int).push(model[i as int]));
                    }
                    frames.push(frame);
                    proof {
                        assert(frames@.map(|j: int, f: Frame| f@) =~= model.take(i + 1));
                    }
                    i = i + 1;
                }
                proof {
                    assert(model.take(model.len() as int) =~= model);
                }
                Ok(Fragment::frames(frames))
            },
            Content::Fail(code) => Err(LayoutError::ContentFailure(*code)),
            Content::Boxed(b) => b.layout(styles, regions),
            Content::Blocked(b) => b.layout(styles, regions),
            Content::Padded(p) => layout_padded(&p.sides, &p.body, styles, regions),
        }
    }
}

/// Lays out padded content: resolves the sides against the base size,
/// shrinks every region by them, lays the child out there, and grows every
/// produced frame back.
fn layout_padded(
    sides: &Sides<RelAbs>,
    body: &Content,
    styles: &StyleChain,
    regions: &Regions,
) -> (out: Result<Fragment, LayoutError>)
    requires
        content_wf(*body),
        regions@.wf(),
    ensures
        frag_view(out) == lay_padded(*sides, *body, styles.scopes@, regions@),
    decreases *body, 1int,
{
    let first = regions.first();
    let bx = match regions.base.x {
        Some(v) => v,
        None => first.x,
    };
    let by = match regions.base.y {
        Some(v) => v,
        None => first.y,
    };
    let left = sides.left.relative_to(bx);
    let top = sides.top.relative_to(by);
    let right = sides.right.relative_to(bx);
    let bottom = sides.bottom.relative_to(by);

    let ghost shrunk = regions@.sizes.map(
        |i: int, s: Size|
            Size { x: sat64(sat64(s.x - left) - right), y: sat64(sat64(s.y - top) - bottom) },
    );
    let mut sizes: Vec<Size> = Vec::new();
    let mut i: usize = 0;
    while i < regions.sizes.len()
        invariant
            i <= regions@.sizes.len(),
            shrunk == regions@.sizes.map(
                |j: int, s: Size|
                    Size {
                        x: sat64(sat64(s.x - left) - right),
                        y: sat64(sat64(s.y - top) - bottom),
                    },
            ),
            sizes@ =~= shrunk.take(i as int),
        decreases regions@.sizes.len() - i,
    {
        let s = regions.sizes[i];
        let shrunken = Size {
            x: sat_sub(sat_sub(s.x, left), right),
            y: sat_sub(sat_sub(s.y, top), bottom),
        };
        proof {
            assert(shrunken == shrunk[i as int]);
            assert(shrunk.take(i + 1) =~= shrunk.take(i as int).push(shrunk[i as int]));
        }
        sizes.push(shrunken);
        i = i + 1;
    }
    proof {
        assert(shrunk.take(shrunk.len() as int) =~= shrunk);
    }
    let base = Axes {
        x: match regions.base.x {
            Some(v) => Some(sat_sub(sat_sub(v, left), right)),
            None => None,
        },
        y: match regions.base.y {
            Some(v) => Some(sat_sub(sat_sub(v, top), bottom)),
            None => None,
        },
    };
    let inner = Regions::new(sizes, base, regions.expand);
    match body.layout(styles, &inner) {
        Ok(sub) => {
            let ghost laid = lay_content(*body, styles.scopes@, inner@)->Ok_0;
            let mut frames: Vec<Frame> = sub.frames;
            proof {
                assert forall|i: int| 0 <= i < frames@.len() implies #[trigger] frames@[i]@
                    == laid[i] by {
                    assert(frames@.map(|j: int, f: Frame| f@)[i] == frames@[i]@);
                }
            }
            let mut out: Vec<Frame> = Vec::new();
            while frames.len() > 0
                invariant
                    out@.len() + frames@.len() == laid.len(),
                    forall|i: int|
                        0 <= i < frames@.len() ==> #[trigger] frames@[i]@ == laid[out@.len()
                            + i],
                    forall|i: int|
                        0 <= i < out@.len() ==> #[trigger] out@[i]@ == frame_padded(
                            laid[i],
                            left,
                            top,
                            right,
                            bottom,
                        ),
                decreases frames@.len(),
            {
                let ghost k = out@.len() as int;
                let mut f = frames.remove(0);
                proof {
                    assert(f@ == laid[k]);
                }
                f.grow(left, top, right, bottom);
                out.push(f);
            }
            let result = Fragment::frames(out);
            proof {
                assert(result@ =~= laid.map(
                    |j: int, f: FrameV| frame_padded(f, left, top, right, bottom),
                ));
            }
            Ok(result)
        },
        Err(e) => Err(e),
    }
}

impl BoxNode {
    /// Builds a box from its positional content argument and named sizing
    /// arguments; absent arguments take their defaults: empty content, and
    /// automatic sizing on both axes.
    pub fn construct(
        body: Option<Content>,
        width: Option<Sizing>,
        height: Option<Smart<RelAbs>>,
    ) -> (b: BoxNode)
        ensures
            b.body == (match body {
                Some(c) => c,
                None => empty_content(),
            }),
            b.width == (match width {
                Some(w) => w,
                None => Sizing::Auto,
            }),
            b.height == (match height {
                Some(h) => h,
                None => Smart::<RelAbs>::Auto,
            }),
    {
        let body = match body {
            Some(c) => c,
            None => Content::empty(),
        };
        let width = match width {
            Some(w) => w,
            None => Sizing::Auto,
        };
        let height = match height {
            Some(h) => h,
            None => Smart::Auto,
        };
        BoxNode { body, width, height }
    }

    /// Lays the box out: resolves its sizing to a single child region,
    /// recurses into the content, and requires exactly one frame back, which
    /// is baseline-shifted, decorated, and tagged with the style context.
    pub fn layout(&self, styles: &StyleChain, regions: &Regions) -> (out: Result<
        Fragment,
        LayoutError,
    >)
        requires
            content_wf(self.body),
            regions@.wf(),
        ensures
            frag_view(out) == lay_box(*self, styles.scopes@, regions@),
        decreases self.body, 2int,
    {
        // Resolve the sizing to a concrete size, the region size standing in
        // on axes whose sizing or base is absent.
        let first = regions.first();
        let resolved = resolve_sizing(self.width, self.height, regions);
        let size = Size {
            x: match resolved.x {
                Some(v) => v,
                None => first.x,
            },
            y: match resolved.y {
                Some(v) => v,
                None => first.y,
            },
        };

        // An explicitly sized axis expands its child to fill that size; an
        // auto axis inherits the ambient expand policy.
        let auto_x = match self.width {
            Sizing::Auto => true,
            _ => false,
        };
        let auto_y = self.height.is_auto();
        let expand = Axes {
            x: regions.expand.x || !auto_x,
            y: regions.expand.y || !auto_y,
        };
        let pod = Regions::one(size, expand);

        // Apply inset, wrapping the content in the padding transform.
        let inset = styles.fold_inset();
        let sub = if sides_is_zero(&inset) {
            self.body.layout(styles, &pod)
        } else {
            layout_padded(&inset, &self.body, styles, &pod)
        };

        match sub {
            Ok(frag) => {
                // The single-region contract: exactly one frame may come
                // back.
                if frag.frames.len() != 1 {
                    return Err(LayoutError::RegionCountMismatch);
                }
                let mut frames = frag.frames;
                let mut frame = frames.remove(0);

                // Apply baseline shift.
                let shift = styles.resolve_baseline().relative_to(frame.height());
                if shift != 0 {
                    let b = frame.baseline();
                    frame.set_baseline(sat_sub(b, shift));
                }

                // Add fill and/or stroke, and attach metadata.
                decorate_frame(&mut frame, styles);
                let out = Fragment::frame(frame);
                proof {
                    assert(out@ =~= lay_box(*self, styles.scopes@, regions@)->Ok_0);
                }
                Ok(out)
            },
            Err(e) => Err(e),
        }
    }
}

impl BlockNode {
    /// Builds a block from its positional content argument; an absent
    /// argument takes the empty content.
    pub fn construct(body: Option<Content>) -> (b: BlockNode)
        ensures
            b.body == (match body {
                Some(c) => c,
                None => empty_content(),
            }),
    {
        let body = match body {
            Some(c) => c,
            None => Content::empty(),
        };
        BlockNode { body }
    }

    /// Writes the spacing arguments into a style scope: an explicit `above`
    /// or `below` takes precedence over the shared `spacing`, and an absent
    /// argument leaves the scope's value as it was.
    pub fn set(
        styles: &mut StyleScope,
        spacing: Option<Spacing>,
        above: Option<Spacing>,
        below: Option<Spacing>,
    )
        ensures
            final(styles).above == (match above {
                Some(a) => Some(VSpacing { amount: a, around: true }),
                None => match spacing {
                    Some(s) => Some(VSpacing { amount: s, around: false }),
                    None => old(styles).above,
                },
            }),
            final(styles).below == (match below {
                Some(b) => Some(VSpacing { amount: b, around: true }),
                None => match spacing {
                    Some(s) => Some(VSpacing { amount: s, around: false }),
                    None => old(styles).below,
                },
            }),
            *final(styles) == (StyleScope {
                above: final(styles).above,
                below: final(styles).below,
                ..*old(styles)
            }),
    {
        let shared = match spacing {
            Some(s) => Some(VSpacing { amount: s, around: false }),
            None => None,
        };
        let above_v = match above {
            Some(a) => Some(VSpacing { amount: a, around: true }),
            None => shared,
        };
        let below_v = match below {
            Some(b) => Some(VSpacing { amount: b, around: true }),
            None => shared,
        };
        match above_v {
            Some(v) => {
                styles.above = Some(v);
            },
            None => {},
        }
        match below_v {
            Some(v) => {
                styles.below = Some(v);
            },
            None => {},
        }
    }

    /// Lays the block out across the unmodified multi-region descriptor and
    /// decorates every returned frame independently; the frame count is
    /// passed through unchanged.
    pub fn layout(&self, styles: &StyleChain, regions: &Regions) -> (out: Result<
        Fragment,
        LayoutError,
    >)
        requires
            content_wf(self.body),
            regions@.wf(),
        ensures
            frag_view(out) == lay_block(*self, styles.scopes@, regions@),
        decreases self.body, 2int,
    {
        // Apply inset, wrapping the content in the padding transform.
        let inset = styles.fold_inset();
        let sub = if sides_is_zero(&inset) {
            self.body.layout(styles, regions)
        } else {
            layout_padded(&inset, &self.body, styles, regions)
        };

        match sub {
            Ok(frag) => {
                let ghost laid = (if sides_zero(inset_of(styles.scopes@)) {
                    lay_content(self.body, styles.scopes@, regions@)
                } else {
                    lay_padded(inset_of(styles.scopes@), self.body, styles.scopes@, regions@)
                })->Ok_0;
                let mut frames: Vec<Frame> = frag.frames;
                proof {
                    assert forall|i: int| 0 <= i < frames@.len() implies #[trigger] frames@[i]@
                        == laid[i] by {
                        assert(frames@.map(|j: int, f: Frame| f@)[i] == frames@[i]@);
                    }
                }
                let mut out: Vec<Frame> = Vec::new();
                while frames.len() > 0
                    invariant
                        out@.len() + frames@.len() == laid.len(),
                        forall|i: int|
                            0 <= i < frames@.len() ==> #[trigger] frames@[i]@ == laid[out@.len()
                                + i],
                        forall|i: int|
                            0 <= i < out@.len() ==> #[trigger] out@[i]@ == block_decorate(
                                laid[i],
                                styles.scopes@,
                            ),
                    decreases frames@.len(),
                {
                    let ghost k = out@.len() as int;
                    let mut f = frames.remove(0);
                    proof {
                        assert(f@ == laid[k]);
                    }
                    decorate_frame(&mut f, styles);
                    out.push(f);
                }
                let result = Fragment::frames(out);
                proof {
                    assert(result@ =~= laid.map(
                        |j: int, f: FrameV| block_decorate(f, styles.scopes@),
                    ));
                }
                Ok(result)
            },
            Err(e) => Err(e),
        }
    }
}

} // verus!
