//! The laws of the layout pipeline, stated of the mathematical model and
//! proved for every input they speak of.

use vstd::prelude::*;
use crate::geom::{Point, Size, Axes, RelAbs, Sides, sat64, div_mille, rel_to_spec, PERMILLE};
use crate::sizing::{Sizing, Smart};
use crate::styles::{
    StyleScope, scope_empty_spec, zero_rel, inset_of, baseline_of, fill_of, stroke_of,
    outset_of, radius_of,
};
use crate::frame::{
    FrameV, FrameItemV, items_translated, frame_padded, frame_shifted, frame_decorated,
    decor_spec,
};
use crate::region::{RegionsV, one_region};
use crate::layout::{
    Content, ElemNode, MultiNode, BoxNode, BlockNode, LayoutError, lay_content, lay_box,
    lay_block, lay_padded, sides_zero, strokes_complete, decor_visible, multi_frames,
    block_decorate, elem_frame, size_or, box_width, box_height,
};

verus! {

/// *Sizing resolution.* For a relative sizing of ratio `r` (in permille) and
/// offset `o`, resolved against a base `b`, the resolved size is exactly
/// `r*b/1000 + o`, for all non-negative `r` and `b` and any `o` for which
/// that value is representable.
pub proof fn lemma_relative_resolution(r: i64, o: i64, b: i64)
    requires
        0 <= r,
        0 <= b,
        i64::MIN <= r * b / (PERMILLE as int) + o <= i64::MAX,
    ensures
        rel_to_spec(RelAbs { ratio: r, abs: o }, b) == r * b / (PERMILLE as int) + o,
{
    assert(r * b >= 0) by (nonlinear_arith)
        requires
            0 <= r,
            0 <= b,
    ;
}

/// *Auto passthrough.* A box with automatic width and height, wrapping a
/// leaf of natural size `natural`, laid out without ambient expansion and
/// without inset, yields exactly one frame, of exactly that natural size.
pub proof fn lemma_auto_passthrough(
    natural: Size,
    id: u64,
    ch: Seq<StyleScope>,
    r: RegionsV,
)
    requires
        r.wf(),
        !r.expand.x,
        !r.expand.y,
        sides_zero(inset_of(ch)),
    ensures
        ({
            let b = BoxNode {
                body: Content::Elem(ElemNode { natural, id }),
                width: Sizing::Auto,
                height: Smart::Auto,
            };
            let out = lay_box(b, ch, r);
            out is Ok && out->Ok_0.len() == 1 && out->Ok_0[0].size == natural
        }),
{
}

/// *Baseline shift.* For a box whose content has natural height `h` and a
/// baseline shift of `p` permille of the frame height, the new baseline
/// equals the old baseline (the height, for a leaf) minus `p*h/1000`,
/// whenever those values are representable; a zero shift is a no-op.
pub proof fn lemma_baseline_shift(
    natural: Size,
    id: u64,
    p: i64,
    ch: Seq<StyleScope>,
    r: RegionsV,
)
    requires
        r.wf(),
        !r.expand.x,
        !r.expand.y,
        sides_zero(inset_of(ch)),
        baseline_of(ch) == (RelAbs { ratio: p, abs: 0 }),
        i64::MIN <= div_mille(p * natural.y) <= i64::MAX,
        i64::MIN <= natural.y - div_mille(p * natural.y) <= i64::MAX,
    ensures
        ({
            let b = BoxNode {
                body: Content::Elem(ElemNode { natural, id }),
                width: Sizing::Auto,
                height: Smart::Auto,
            };
            let out = lay_box(b, ch, r);
            out is Ok && out->Ok_0[0].baseline == natural.y - div_mille(p * natural.y)
        }),
        p == 0 ==> ({
            let b = BoxNode {
                body: Content::Elem(ElemNode { natural, id }),
                width: Sizing::Auto,
                height: Smart::Auto,
            };
            lay_box(b, ch, r)->Ok_0[0].baseline == natural.y
        }),
{
}

/// *Block multi-region pass-through.* A block whose content splits across
/// `k` regions returns a fragment of exactly `k` frames, each independently
/// carrying the style context as metadata and, where fill or stroke are
/// visible, each decorated with the same folded fill and stroke values.
pub proof fn lemma_block_multi_pass_through(
    m: Box<MultiNode>,
    ch: Seq<StyleScope>,
    r: RegionsV,
)
    requires
        r.wf(),
        m.pieces@.len() >= 1,
    ensures
        ({
            let out = lay_block(BlockNode { body: Content::Multi(m) }, ch, r);
            out is Ok && out->Ok_0.len() == m.pieces@.len()
        }),
        ({
            let out = lay_block(BlockNode { body: Content::Multi(m) }, ch, r);
            forall|i: int|
                0 <= i < out->Ok_0.len() ==> {
                    let items = (#[trigger] out->Ok_0[i]).items;
                    &&& items[0].1 == FrameItemV::Meta(ch)
                    &&& (decor_visible(fill_of(ch), strokes_complete(stroke_of(ch))) ==> {
                        &&& items.len() == 2
                        &&& items[1].1 matches FrameItemV::Decoration(d)
                            && d.fill == fill_of(ch) && d.stroke == strokes_complete(
                            stroke_of(ch),
                        )
                    })
                    &&& (!decor_visible(fill_of(ch), strokes_complete(stroke_of(ch)))
                        ==> items.len() == 1)
                }
        }),
{
    reveal_with_fuel(lay_content, 4);
    reveal_with_fuel(lay_padded, 4);
    reveal_with_fuel(lay_block, 4);
    let out = lay_block(BlockNode { body: Content::Multi(m) }, ch, r);
    let base = multi_frames(m.pieces@, r);
    if sides_zero(inset_of(ch)) {
        assert(out->Ok_0.len() == m.pieces@.len());
    } else {
        assert(out->Ok_0.len() == m.pieces@.len());
    }
    assert forall|i: int| 0 <= i < out->Ok_0.len() implies {
        let items = (#[trigger] out->Ok_0[i]).items;
        &&& items[0].1 == FrameItemV::Meta(ch)
        &&& (decor_visible(fill_of(ch), strokes_complete(stroke_of(ch))) ==> {
            &&& items.len() == 2
            &&& items[1].1 matches FrameItemV::Decoration(d) && d.fill == fill_of(
                ch,
            ) && d.stroke == strokes_complete(stroke_of(ch))
        })
        &&& (!decor_visible(fill_of(ch), strokes_complete(stroke_of(ch))) ==> items.len() == 1)
    } by {
        if sides_zero(inset_of(ch)) {
            assert(base[i].items.len() == 0);
        } else {
            assert(lay_content(Content::Multi(m), ch, r) == Ok::<Seq<FrameV>, LayoutError>(base));
            let sub = lay_padded(inset_of(ch), Content::Multi(m), ch, r);
            assert(sub is Ok && sub->Ok_0[i].items.len() == 0);
        }
    }
}

/// *Box single-region contract.* A box whose content returns more than one
/// frame is rejected as a contract violation, never silently truncated.
pub proof fn lemma_box_single_region(
    m: Box<MultiNode>,
    width: Sizing,
    height: Smart<RelAbs>,
    ch: Seq<StyleScope>,
    r: RegionsV,
)
    requires
        r.wf(),
        m.pieces@.len() >= 2,
    ensures
        lay_box(BoxNode { body: Content::Multi(m), width, height }, ch, r) == Err::<
            Seq<FrameV>,
            LayoutError,
        >(LayoutError::RegionCountMismatch),
{
    reveal_with_fuel(lay_content, 4);
    reveal_with_fuel(lay_padded, 4);
    reveal_with_fuel(lay_box, 4);
}

/// *Failure propagation.* A failure raised by the wrapped content is
/// forwarded unchanged by both containers, whatever the styles; no default
/// behavior is substituted.
pub proof fn lemma_failure_propagation(
    code: u64,
    width: Sizing,
    height: Smart<RelAbs>,
    ch: Seq<StyleScope>,
    r: RegionsV,
)
    requires
        r.wf(),
    ensures
        lay_box(BoxNode { body: Content::Fail(code), width, height }, ch, r) == Err::<
            Seq<FrameV>,
            LayoutError,
        >(LayoutError::ContentFailure(code)),
        lay_block(BlockNode { body: Content::Fail(code) }, ch, r) == Err::<
            Seq<FrameV>,
            LayoutError,
        >(LayoutError::ContentFailure(code)),
{
    reveal_with_fuel(lay_content, 4);
    reveal_with_fuel(lay_padded, 4);
    reveal_with_fuel(lay_box, 4);
    reveal_with_fuel(lay_block, 4);
}

/// The content elements of a frame's item list, with their positions, in
/// order: the part of a frame that decoration and metadata never touch.
pub open spec fn elems_of(items: Seq<(Point, FrameItemV)>) -> Seq<(Point, u64)>
    decreases items.len(),
{
    if items.len() == 0 {
        Seq::empty()
    } else {
        let rest = elems_of(items.skip(1));
        match items[0].1 {
            FrameItemV::Element(id) => rest.insert(0, (items[0].0, id)),
            _ => rest,
        }
    }
}

/// Two frames agree in geometry: same size, same baseline, and the same
/// content elements at the same positions.
pub open spec fn same_geometry(f1: FrameV, f2: FrameV) -> bool {
    f1.size == f2.size && f1.baseline == f2.baseline && elems_of(f1.items) == elems_of(f2.items)
}

/// Two layout results agree in geometry: the same failure, or framewise
/// geometric agreement.
pub open spec fn same_geometry_res(
    r1: Result<Seq<FrameV>, LayoutError>,
    r2: Result<Seq<FrameV>, LayoutError>,
) -> bool {
    match (r1, r2) {
        (Ok(a), Ok(b)) => a.len() == b.len() && (forall|i: int|
            0 <= i < a.len() ==> same_geometry(#[trigger] a[i], b[i])),
        (Err(e1), Err(e2)) => e1 == e2,
        _ => false,
    }
}

/// Two chains agree on the geometry-relevant properties: the folded inset
/// and the resolved baseline shift. Fill, stroke, radius, and outset are
/// decoration-only.
pub open spec fn geom_agree(c1: Seq<StyleScope>, c2: Seq<StyleScope>) -> bool {
    inset_of(c1) == inset_of(c2) && baseline_of(c1) == baseline_of(c2)
}

proof fn lemma_elems_prepend_non_element(items: Seq<(Point, FrameItemV)>, x: (Point, FrameItemV))
    requires
        !(x.1 is Element),
    ensures
        elems_of(items.insert(0, x)) == elems_of(items),
{
    let s = items.insert(0, x);
    assert(s[0] == x);
    assert(s.skip(1) =~= items);
}

proof fn lemma_elems_translated(items: Seq<(Point, FrameItemV)>, dx: i64, dy: i64)
    ensures
        elems_of(items_translated(items, dx, dy)) == elems_of(items).map(
            |i: int, e: (Point, u64)| (Point { x: sat64(e.0.x + dx), y: sat64(e.0.y + dy) }, e.1),
        ),
    decreases items.len(),
{
    let t = items_translated(items, dx, dy);
    let f = |i: int, e: (Point, u64)| (Point { x: sat64(e.0.x + dx), y: sat64(e.0.y + dy) }, e.1);
    if items.len() == 0 {
        assert(t =~= Seq::<(Point, FrameItemV)>::empty());
        assert(elems_of(items).map(f) =~= Seq::<(Point, u64)>::empty());
    } else {
        lemma_elems_translated(items.skip(1), dx, dy);
        assert(t.skip(1) =~= items_translated(items.skip(1), dx, dy));
        assert(t[0] == (
            Point { x: sat64(items[0].0.x + dx), y: sat64(items[0].0.y + dy) },
            items[0].1,
        ));
        match items[0].1 {
            FrameItemV::Element(id) => {
                assert(elems_of(t) == elems_of(t.skip(1)).insert(
                    0,
                    (Point { x: sat64(items[0].0.x + dx), y: sat64(items[0].0.y + dy) }, id),
                ));
                assert(elems_of(items) == elems_of(items.skip(1)).insert(
                    0,
                    (items[0].0, id),
                ));
                assert(elems_of(items).map(f) =~= elems_of(items.skip(1)).map(f).insert(
                    0,
                    (Point { x: sat64(items[0].0.x + dx), y: sat64(items[0].0.y + dy) }, id),
                ));
            },
            _ => {
                assert(elems_of(t) == elems_of(t.skip(1)));
                assert(elems_of(items) == elems_of(items.skip(1)));
            },
        }
    }
}

proof fn lemma_padded_frame_geom(f1: FrameV, f2: FrameV, left: i64, top: i64, right: i64, bottom: i64)
    requires
        same_geometry(f1, f2),
    ensures
        same_geometry(
            frame_padded(f1, left, top, right, bottom),
            frame_padded(f2, left, top, right, bottom),
        ),
{
    lemma_elems_translated(f1.items, left, top);
    lemma_elems_translated(f2.items, left, top);
}

proof fn lemma_block_decorate_geom(f1: FrameV, f2: FrameV, c1: Seq<StyleScope>, c2: Seq<StyleScope>)
    requires
        same_geometry(f1, f2),
    ensures
        same_geometry(block_decorate(f1, c1), block_decorate(f2, c2)),
{
    let fill1 = fill_of(c1);
    let stroke1 = strokes_complete(stroke_of(c1));
    let d1 = if decor_visible(fill1, stroke1) {
        lemma_elems_prepend_non_element(
            f1.items,
            decor_spec(f1.size, fill1, stroke1, outset_of(c1), radius_of(c1)),
        );
        frame_decorated(f1, fill1, stroke1, outset_of(c1), radius_of(c1))
    } else {
        f1
    };
    let fill2 = fill_of(c2);
    let stroke2 = strokes_complete(stroke_of(c2));
    let d2 = if decor_visible(fill2, stroke2) {
        lemma_elems_prepend_non_element(
            f2.items,
            decor_spec(f2.size, fill2, stroke2, outset_of(c2), radius_of(c2)),
        );
        frame_decorated(f2, fill2, stroke2, outset_of(c2), radius_of(c2))
    } else {
        f2
    };
    assert(same_geometry(d1, d2));
    lemma_elems_prepend_non_element(d1.items, (Point { x: 0, y: 0 }, FrameItemV::Meta(c1)));
    lemma_elems_prepend_non_element(d2.items, (Point { x: 0, y: 0 }, FrameItemV::Meta(c2)));
}

/// Layout geometry depends on the style chain only through the folded inset
/// and the resolved baseline: two chains that agree on those yield, for
/// every content and every region, results of the same failure or of
/// framewise equal sizes, baselines, and positioned content elements —
/// whatever their fill, stroke, radius, outset, or metadata say.
pub proof fn lemma_geometry_congruence(
    c: Content,
    c1: Seq<StyleScope>,
    c2: Seq<StyleScope>,
    r: RegionsV,
)
    requires
        geom_agree(c1, c2),
    ensures
        same_geometry_res(lay_content(c, c1, r), lay_content(c, c2, r)),
    decreases c, 0int,
{
    match c {
        Content::Elem(e) => {
            let f = elem_frame(e.natural, e.id, r.first(), r.expand);
            assert(same_geometry(f, f));
            assert(lay_content(c, c1, r) == Ok::<Seq<FrameV>, LayoutError>(seq![f]));
        },
        Content::Multi(m) => {
            let fs = multi_frames(m.pieces@, r);
            assert forall|i: int| 0 <= i < fs.len() implies same_geometry(#[trigger] fs[i], fs[i]) by {
            }
        },
        Content::Fail(_) => {
        },
        Content::Boxed(b) => {
            lemma_box_geometry_congruence(*b, c1, c2, r);
        },
        Content::Blocked(b) => {
            lemma_block_geometry_congruence(*b, c1, c2, r);
        },
        Content::Padded(p) => {
            lemma_padded_geometry_congruence(p.sides, p.body, c1, c2, r);
        },
    }
}

proof fn lemma_padded_geometry_congruence(
    sides: Sides<RelAbs>,
    body: Content,
    c1: Seq<StyleScope>,
    c2: Seq<StyleScope>,
    r: RegionsV,
)
    requires
        geom_agree(c1, c2),
    ensures
        same_geometry_res(
            lay_padded(sides, body, c1, r),
            lay_padded(sides, body, c2, r),
        ),
    decreases body, 1int,
{
    let bx = size_or(r.base.x, r.first().x);
    let by = size_or(r.base.y, r.first().y);
    let left = rel_to_spec(sides.left, bx);
    let top = rel_to_spec(sides.top, by);
    let right = rel_to_spec(sides.right, bx);
    let bottom = rel_to_spec(sides.bottom, by);
    let inner = RegionsV {
        sizes: r.sizes.map(
            |i: int, s: Size|
                Size { x: sat64(sat64(s.x - left) - right), y: sat64(sat64(s.y - top) - bottom) },
        ),
        base: Axes {
            x: match r.base.x {
                Some(v) => Some(sat64(sat64(v - left) - right)),
                None => None,
            },
            y: match r.base.y {
                Some(v) => Some(sat64(sat64(v - top) - bottom)),
                None => None,
            },
        },
        expand: r.expand,
    };
    lemma_geometry_congruence(body, c1, c2, inner);
    match (lay_content(body, c1, inner), lay_content(body, c2, inner)) {
        (Ok(fr1), Ok(fr2)) => {
            let m1 = fr1.map(|j: int, f: FrameV| frame_padded(f, left, top, right, bottom));
            let m2 = fr2.map(|j: int, f: FrameV| frame_padded(f, left, top, right, bottom));
            assert forall|i: int| 0 <= i < m1.len() implies same_geometry(
                #[trigger] m1[i],
                m2[i],
            ) by {
                assert(same_geometry(fr1[i], fr2[i]));
                lemma_padded_frame_geom(fr1[i], fr2[i], left, top, right, bottom);
            }
        },
        _ => {
        },
    }
}

proof fn lemma_box_geometry_congruence(
    b: BoxNode,
    c1: Seq<StyleScope>,
    c2: Seq<StyleScope>,
    r: RegionsV,
)
    requires
        geom_agree(c1, c2),
    ensures
        same_geometry_res(lay_box(b, c1, r), lay_box(b, c2, r)),
    decreases b.body, 2int,
{
    let size = Size {
        x: size_or(box_width(b.width, r), r.first().x),
        y: size_or(box_height(b.height, r), r.first().y),
    };
    let expand = Axes {
        x: r.expand.x || !(b.width is Auto),
        y: r.expand.y || !(b.height is Auto),
    };
    let pod = one_region(size, expand);
    let inset = inset_of(c1);
    if sides_zero(inset) {
        lemma_geometry_congruence(b.body, c1, c2, pod);
    } else {
        lemma_padded_geometry_congruence(inset, b.body, c1, c2, pod);
    }
    let sub1 = if sides_zero(inset) {
        lay_content(b.body, c1, pod)
    } else {
        lay_padded(inset, b.body, c1, pod)
    };
    let sub2 = if sides_zero(inset) {
        lay_content(b.body, c2, pod)
    } else {
        lay_padded(inset, b.body, c2, pod)
    };
    match (sub1, sub2) {
        (Ok(fr1), Ok(fr2)) => {
            if fr1.len() == 1 {
                assert(same_geometry(fr1[0], fr2[0]));
                let shift = rel_to_spec(baseline_of(c1), fr1[0].size.y);
                assert(rel_to_spec(baseline_of(c2), fr2[0].size.y) == shift);
                let s1 = if shift != 0 {
                    frame_shifted(fr1[0], shift)
                } else {
                    fr1[0]
                };
                let s2 = if shift != 0 {
                    frame_shifted(fr2[0], shift)
                } else {
                    fr2[0]
                };
                assert(same_geometry(s1, s2));
                lemma_block_decorate_geom(s1, s2, c1, c2);
                assert(lay_box(b, c1, r) == Ok::<Seq<FrameV>, LayoutError>(
                    seq![block_decorate(s1, c1)],
                ));
                assert(lay_box(b, c2, r) == Ok::<Seq<FrameV>, LayoutError>(
                    seq![block_decorate(s2, c2)],
                ));
            }
        },
        _ => {
        },
    }
}

proof fn lemma_block_geometry_congruence(
    b: BlockNode,
    c1: Seq<StyleScope>,
    c2: Seq<StyleScope>,
    r: RegionsV,
)
    requires
        geom_agree(c1, c2),
    ensures
        same_geometry_res(lay_block(b, c1, r), lay_block(b, c2, r)),
    decreases b.body, 2int,
{
    let inset = inset_of(c1);
    if sides_zero(inset) {
        lemma_geometry_congruence(b.body, c1, c2, r);
    } else {
        lemma_padded_geometry_congruence(inset, b.body, c1, c2, r);
    }
    let sub1 = if sides_zero(inset) {
        lay_content(b.body, c1, r)
    } else {
        lay_padded(inset, b.body, c1, r)
    };
    let sub2 = if sides_zero(inset) {
        lay_content(b.body, c2, r)
    } else {
        lay_padded(inset, b.body, c2, r)
    };
    match (sub1, sub2) {
        (Ok(fr1), Ok(fr2)) => {
            let m1 = fr1.map(|j: int, f: FrameV| block_decorate(f, c1));
            let m2 = fr2.map(|j: int, f: FrameV| block_decorate(f, c2));
            assert forall|i: int| 0 <= i < m1.len() implies same_geometry(
                #[trigger] m1[i],
                m2[i],
            ) by {
                assert(same_geometry(fr1[i], fr2[i]));
                lemma_block_decorate_geom(fr1[i], fr2[i], c1, c2);
            }
        },
        _ => {
        },
    }
}

/// *Inset idempotence on zero.* Where the chain's folded inset is already
/// zero, pushing a nearest scope that sets the inset to zero on all sides —
/// and nothing else — leaves every laid-out frame identical in size,
/// baseline, and positioned content elements.
pub proof fn lemma_inset_zero_no_op(
    c: Content,
    s0: StyleScope,
    ch: Seq<StyleScope>,
    r: RegionsV,
)
    requires
        s0 == (StyleScope {
            inset: Sides {
                left: Some(zero_rel()),
                top: Some(zero_rel()),
                right: Some(zero_rel()),
                bottom: Some(zero_rel()),
            },
            ..scope_empty_spec()
        }),
        sides_zero(inset_of(ch)),
    ensures
        same_geometry_res(lay_content(c, ch.insert(0, s0), r), lay_content(c, ch, r)),
{
    let pushed = ch.insert(0, s0);
    assert(pushed.skip(1) =~= ch);
    assert(inset_of(pushed) == inset_of(ch));
    assert(baseline_of(pushed) == baseline_of(ch));
    lemma_geometry_congruence(c, pushed, ch, r);
}

/// *Decoration independence.* Pushing a nearest scope that sets only fill,
/// stroke, radius, or outset — toggling the decoration on or off — never
/// changes any laid-out frame's size, baseline, or positioned content
/// elements, nor which failure is raised.
pub proof fn lemma_decoration_independence(
    c: Content,
    s0: StyleScope,
    ch: Seq<StyleScope>,
    r: RegionsV,
)
    requires
        s0 == (StyleScope {
            fill: s0.fill,
            stroke: s0.stroke,
            radius: s0.radius,
            outset: s0.outset,
            ..scope_empty_spec()
        }),
    ensures
        same_geometry_res(lay_content(c, ch.insert(0, s0), r), lay_content(c, ch, r)),
{
    let pushed = ch.insert(0, s0);
    assert(pushed.skip(1) =~= ch);
    assert(inset_of(pushed) == inset_of(ch));
    assert(baseline_of(pushed) == baseline_of(ch));
    lemma_geometry_congruence(c, pushed, ch, r);
}

} // verus!
