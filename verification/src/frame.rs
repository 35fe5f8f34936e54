//! Frames: the drawing output of layout.
//!
//! A frame is a sized, positioned collection of drawing elements with a
//! baseline offset measured from its top edge. Containers never inspect a
//! frame's elements beyond reading its size, reading and overwriting its
//! baseline, and prepending decoration elements and metadata. A fragment is
//! the output of one layout call: a sequence of frames, one per consumed
//! region.

use vstd::prelude::*;
use crate::geom::{Point, Size, Sides, Corners, RelAbs, sat64, sat_add, sat_sub, rel_to_spec};
use crate::styles::{Paint, Stroke, StyleChain, StyleScope};

verus! {

/// A fill-and-stroke decoration element, fully resolved to absolute
/// lengths.
#[derive(Debug, Clone, Copy, PartialEq, Eq, Hash)]
pub struct DecorItem {
    /// The background fill, if any.
    pub fill: Option<Paint>,
    /// The border stroke per side, if any.
    pub stroke: Sides<Option<Stroke>>,
    /// The size of the decorated area: the frame extended by the outset.
    pub size: Size,
    /// The corner radii, in layout units.
    pub radius: Corners<i64>,
}

/// One drawing element of a frame.
#[derive(Debug, PartialEq, Eq)]
pub enum FrameItem {
    /// An opaque content element produced by child layout.
    Element(u64),
    /// A fill-and-stroke decoration.
    Decoration(DecorItem),
    /// The style context attached for downstream introspection.
    Meta(StyleChain),
}

/// The mathematical value of a drawing element; metadata carries the scope
/// sequence of the attached chain.
pub enum FrameItemV {
    /// An opaque content element.
    Element(u64),
    /// A fill-and-stroke decoration.
    Decoration(DecorItem),
    /// The attached style scopes, nearest-first.
    Meta(Seq<StyleScope>),
}

impl View for FrameItem {
    type V = FrameItemV;

    open spec fn view(&self) -> FrameItemV {
        match self {
            FrameItem::Element(id) => FrameItemV::Element(*id),
            FrameItem::Decoration(d) => FrameItemV::Decoration(*d),
            FrameItem::Meta(ch) => FrameItemV::Meta(ch.scopes@),
        }
    }
}

/// The mathematical value of a frame.
pub struct FrameV {
    /// The overall size.
    pub size: Size,
    /// The baseline offset from the top edge.
    pub baseline: i64,
    /// The positioned drawing elements, in paint order.
    pub items: Seq<(Point, FrameItemV)>,
}

/// A sized, positioned collection of drawing elements with a baseline.
#[derive(Debug, PartialEq, Eq)]
pub struct Frame {
    /// The overall size.
    pub size: Size,
    /// The baseline offset from the top edge.
    pub baseline: i64,
    /// The positioned drawing elements, in paint order.
    pub items: Vec<(Point, FrameItem)>,
}

/// The view of a positioned item.
pub open spec fn item_view(p: (Point, FrameItem)) -> (Point, FrameItemV) {
    (p.0, p.1@)
}

impl View for Frame {
    type V = FrameV;

    open spec fn view(&self) -> FrameV {
        FrameV {
            size: self.size,
            baseline: self.baseline,
            items: self.items@.map(|i: int, p: (Point, FrameItem)| item_view(p)),
        }
    }
}

/// The output of a layout call: one frame per consumed region.
#[derive(Debug, PartialEq, Eq)]
pub struct Fragment {
    /// The frames, in region order.
    pub frames: Vec<Frame>,
}

impl View for Fragment {
    type V = Seq<FrameV>;

    open spec fn view(&self) -> Seq<FrameV> {
        self.frames@.map(|i: int, f: Frame| f@)
    }
}

/// Items translated by an offset: every element moves, nothing else
/// changes.
pub open spec fn items_translated(
    items: Seq<(Point, FrameItemV)>,
    dx: i64,
    dy: i64,
) -> Seq<(Point, FrameItemV)> {
    items.map(
        |i: int, p: (Point, FrameItemV)|
            (Point { x: sat64(p.0.x + dx), y: sat64(p.0.y + dy) }, p.1),
    )
}

/// A frame grown by per-side padding: the size gains the side sums, the
/// baseline moves down by the top padding, and every element moves by the
/// left and top padding.
pub open spec fn frame_padded(f: FrameV, left: i64, top: i64, right: i64, bottom: i64) -> FrameV {
    FrameV {
        size: Size {
            x: sat64(sat64(f.size.x + left) + right),
            y: sat64(sat64(f.size.y + top) + bottom),
        },
        baseline: sat64(f.baseline + top),
        items: items_translated(f.items, left, top),
    }
}

/// A frame with its baseline shifted upward by `shift`.
pub open spec fn frame_shifted(f: FrameV, shift: i64) -> FrameV {
    FrameV { size: f.size, baseline: sat64(f.baseline - shift), items: f.items }
}

/// The decoration element for a frame of size `size`: positioned and sized
/// according to the frame's box extended by the outset, with radii resolved
/// against the shorter frame side.
pub open spec fn decor_spec(
    size: Size,
    fill: Option<Paint>,
    stroke: Sides<Option<Stroke>>,
    outset: Sides<RelAbs>,
    radius: Corners<RelAbs>,
) -> (Point, FrameItemV) {
    let left = rel_to_spec(outset.left, size.x);
    let top = rel_to_spec(outset.top, size.y);
    let right = rel_to_spec(outset.right, size.x);
    let bottom = rel_to_spec(outset.bottom, size.y);
    let short = if size.x < size.y { size.x } else { size.y };
    (
        Point { x: sat64(0 - left), y: sat64(0 - top) },
        FrameItemV::Decoration(
            DecorItem {
                fill,
                stroke,
                size: Size {
                    x: sat64(sat64(size.x + left) + right),
                    y: sat64(sat64(size.y + top) + bottom),
                },
                radius: Corners {
                    top_left: rel_to_spec(radius.top_left, short),
                    top_right: rel_to_spec(radius.top_right, short),
                    bottom_right: rel_to_spec(radius.bottom_right, short),
                    bottom_left: rel_to_spec(radius.bottom_left, short),
                },
            },
        ),
    )
}

/// A frame with a fill-and-stroke decoration prepended.
pub open spec fn frame_decorated(
    f: FrameV,
    fill: Option<Paint>,
    stroke: Sides<Option<Stroke>>,
    outset: Sides<RelAbs>,
    radius: Corners<RelAbs>,
) -> FrameV {
    FrameV {
        size: f.size,
        baseline: f.baseline,
        items: f.items.insert(0, decor_spec(f.size, fill, stroke, outset, radius)),
    }
}

/// A frame with the style scopes attached as metadata.
pub open spec fn frame_with_meta(f: FrameV, scopes: Seq<StyleScope>) -> FrameV {
    FrameV {
        size: f.size,
        baseline: f.baseline,
        items: f.items.insert(0, (Point { x: 0, y: 0 }, FrameItemV::Meta(scopes))),
    }
}

impl Frame {
    /// A frame of the given size with a single content element at the
    /// origin; the baseline defaults to the bottom edge.
    pub fn with_element(size: Size, id: u64) -> (f: Frame)
        ensures
            f@.size == size,
            f@.baseline == size.y,
            f@.items =~= seq![(Point { x: 0, y: 0 }, FrameItemV::Element(id))],
    {
        let mut items: Vec<(Point, FrameItem)> = Vec::new();
        items.push((Point { x: 0, y: 0 }, FrameItem::Element(id)));
        Frame { size, baseline: size.y, items }
    }

    /// A frame of the given size with no elements; the baseline defaults to
    /// the bottom edge.
    pub fn soft(size: Size) -> (f: Frame)
        ensures
            f@.size == size,
            f@.baseline == size.y,
            f@.items =~= Seq::<(Point, FrameItemV)>::empty(),
    {
        Frame { size, baseline: size.y, items: Vec::new() }
    }

    /// The frame's overall size.
    pub fn size(&self) -> (s: Size)
        ensures
            s == self@.size,
    {
        self.size
    }

    /// The frame's width.
    pub fn width(&self) -> (w: i64)
        ensures
            w == self@.size.x,
    {
        self.size.x
    }

    /// The frame's height.
    pub fn height(&self) -> (h: i64)
        ensures
            h == self@.size.y,
    {
        self.size.y
    }

    /// The baseline offset from the frame's top edge.
    pub fn baseline(&self) -> (b: i64)
        ensures
            b == self@.baseline,
    {
        self.baseline
    }

    /// Overwrites the baseline offset.
    pub fn set_baseline(&mut self, baseline: i64)
        ensures
            final(self)@ == (FrameV { baseline, ..old(self)@ }),
    {
        self.baseline = baseline;
    }

    /// Grows the frame by per-side padding: the size gains the side sums,
    /// the baseline moves down by the top padding, and every element moves
    /// by the left and top padding.
    pub fn grow(&mut self, left: i64, top: i64, right: i64, bottom: i64)
        ensures
            final(self)@ == frame_padded(old(self)@, left, top, right, bottom),
    {
        let ghost orig = self.items@;
        let mut moved: Vec<(Point, FrameItem)> = Vec::new();
        while self.items.len() > 0
            invariant
                self.size == old(self).size,
                self.baseline == old(self).baseline,
                moved@.len() + self.items@.len() == orig.len(),
                self.items@ =~= orig.skip(moved@.len() as int),
                forall|i: int|
                    0 <= i < moved@.len() ==> moved@[i] == (
                        Point {
                            x: sat64(#[trigger] orig[i].0.x + left),
                            y: sat64(orig[i].0.y + top),
                        },
                        orig[i].1,
                    ),
            decreases self.items@.len(),
        {
            let ghost k = moved@.len() as int;
            let ghost pre = self.items@;
            let (p, it) = self.items.remove(0);
            proof {
                assert((p, it) == orig[k]);
                assert(self.items@ =~= orig.skip(k + 1));
            }
            moved.push((Point { x: sat_add(p.x, left), y: sat_add(p.y, top) }, it));
        }
        self.items = moved;
        self.size = Size {
            x: sat_add(sat_add(self.size.x, left), right),
            y: sat_add(sat_add(self.size.y, top), bottom),
        };
        self.baseline = sat_add(self.baseline, top);
        proof {
            assert(self@.items =~= items_translated(old(self)@.items, left, top));
            assert(self@ == frame_padded(old(self)@, left, top, right, bottom));
        }
    }

    /// Prepends a fill-and-stroke decoration sized according to this frame's
    /// box extended by the outset, rounded by the radii.
    pub fn fill_and_stroke(
        &mut self,
        fill: Option<Paint>,
        stroke: Sides<Option<Stroke>>,
        outset: Sides<RelAbs>,
        radius: Corners<RelAbs>,
    )
        ensures
            final(self)@ == frame_decorated(old(self)@, fill, stroke, outset, radius),
    {
        let left = outset.left.relative_to(self.size.x);
        let top = outset.top.relative_to(self.size.y);
        let right = outset.right.relative_to(self.size.x);
        let bottom = outset.bottom.relative_to(self.size.y);
        let short = if self.size.x < self.size.y {
            self.size.x
        } else {
            self.size.y
        };
        let decor = DecorItem {
            fill,
            stroke,
            size: Size {
                x: sat_add(sat_add(self.size.x, left), right),
                y: sat_add(sat_add(self.size.y, top), bottom),
            },
            radius: Corners {
                top_left: radius.top_left.relative_to(short),
                top_right: radius.top_right.relative_to(short),
                bottom_right: radius.bottom_right.relative_to(short),
                bottom_left: radius.bottom_left.relative_to(short),
            },
        };
        let pos = Point { x: sat_sub(0, left), y: sat_sub(0, top) };
        self.items.insert(0, (pos, FrameItem::Decoration(decor)));
        proof {
            assert(self@.items
                =~= old(self)@.items.insert(0, decor_spec(old(self)@.size, fill, stroke, outset, radius)));
            assert(self@ == frame_decorated(old(self)@, fill, stroke, outset, radius));
        }
    }

    /// Attaches the style context as frame metadata.
    pub fn meta(&mut self, styles: &StyleChain)
        ensures
            final(self)@ == frame_with_meta(old(self)@, styles.scopes@),
    {
        self.items.insert(0, (Point { x: 0, y: 0 }, FrameItem::Meta(styles.clone())));
        proof {
            assert(self@.items
                =~= old(self)@.items.insert(0, (Point { x: 0, y: 0 }, FrameItemV::Meta(styles.scopes@))));
            assert(self@ == frame_with_meta(old(self)@, styles.scopes@));
        }
    }
}

impl Fragment {
    /// A fragment of a single frame.
    pub fn frame(frame: Frame) -> (r: Fragment)
        ensures
            r@ =~= seq![frame@],
    {
        let mut frames: Vec<Frame> = Vec::new();
        frames.push(frame);
        Fragment { frames }
    }

    /// A fragment of one frame per consumed region.
    pub fn frames(frames: Vec<Frame>) -> (r: Fragment)
        ensures
            r@ == frames@.map(|i: int, f: Frame| f@),
    {
        Fragment { frames }
    }

    /// The number of frames.
    pub fn len(&self) -> (n: usize)
        ensures
            n == self@.len(),
    {
        self.frames.len()
    }
}

} // verus!
