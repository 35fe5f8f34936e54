use container_layout::frame::{Frame, FrameItem};
use container_layout::geom::{Axes, Point, RelAbs, Size};
use container_layout::layout::{
    BlockNode, BoxNode, Content, ElemNode, LayoutError, MultiNode,
};
use container_layout::region::Regions;
use container_layout::sizing::{Sizing, Smart};
use container_layout::styles::{Paint, StyleChain, StyleScope};

fn leaf(w: i64, h: i64) -> Content {
    Content::Elem(ElemNode { natural: Size { x: w, y: h }, id: 1 })
}

fn no_styles() -> StyleChain {
    StyleChain::empty()
}

fn unconstrained() -> Regions {
    Regions::one(Size { x: 1000, y: 1000 }, Axes { x: false, y: false })
}

fn first_frame(out: Result<container_layout::frame::Fragment, LayoutError>) -> Frame {
    let mut frag = out.expect("layout should succeed");
    assert_eq!(frag.frames.len(), 1);
    frag.frames.remove(0)
}

#[test]
fn auto_passthrough() {
    // An auto-sized box hands its child the ambient expand policy; in an
    // unconstrained region the child keeps its natural size.
    let b = BoxNode { body: leaf(50, 30), width: Sizing::Auto, height: Smart::Auto };
    let frame = first_frame(b.layout(&no_styles(), &unconstrained()));
    assert_eq!(frame.size(), Size { x: 50, y: 30 });
    assert_eq!(frame.baseline(), 30);
}

#[test]
fn end_to_end_relative_width() {
    // A box with a full relative width against a base of 200 resolves to
    // 200; the explicit width forces the child to expand regardless of the
    // ambient flag, so the frame is 200 wide though the content is 50.
    let b = BoxNode {
        body: leaf(50, 30),
        width: Sizing::Rel(RelAbs { ratio: 1000, abs: 0 }),
        height: Smart::Auto,
    };
    let region = Regions::new(
        vec![Size { x: 200, y: 100 }],
        Axes { x: Some(200), y: Some(100) },
        Axes { x: false, y: false },
    );
    let frame = first_frame(b.layout(&no_styles(), &region));
    assert_eq!(frame.size().x, 200);
    assert_eq!(frame.size().y, 30);
}

#[test]
fn fractional_width_fills_region() {
    // Outside an inline-flow context, fractional width degrades to the full
    // available region width.
    let b = BoxNode { body: leaf(50, 30), width: Sizing::Fr(1), height: Smart::Auto };
    let region = Regions::new(
        vec![Size { x: 300, y: 100 }],
        Axes { x: Some(200), y: Some(100) },
        Axes { x: false, y: false },
    );
    let frame = first_frame(b.layout(&no_styles(), &region));
    assert_eq!(frame.size().x, 300);
}

#[test]
fn absent_base_falls_back_to_region_size() {
    // A relative width against an unresolved base is left absent, and the
    // region's own size is used; the axis still counts as explicitly sized,
    // so the child expands to it.
    let b = BoxNode {
        body: leaf(50, 30),
        width: Sizing::Rel(RelAbs { ratio: 500, abs: 0 }),
        height: Smart::Auto,
    };
    let region = Regions::new(
        vec![Size { x: 120, y: 100 }],
        Axes { x: None, y: Some(100) },
        Axes { x: false, y: false },
    );
    let frame = first_frame(b.layout(&no_styles(), &region));
    assert_eq!(frame.size().x, 120);
}

#[test]
fn explicit_height() {
    let b = BoxNode {
        body: leaf(50, 30),
        width: Sizing::Auto,
        height: Smart::Custom(RelAbs { ratio: 0, abs: 80 }),
    };
    let frame = first_frame(b.layout(&no_styles(), &unconstrained()));
    assert_eq!(frame.size(), Size { x: 50, y: 80 });
}

#[test]
fn baseline_shift() {
    // A baseline shift of 400 permille of the frame height 100 moves the
    // baseline from the bottom edge (100) up by 40.
    let mut scope = StyleScope::empty();
    scope.baseline = Some(RelAbs { ratio: 400, abs: 0 });
    let styles = StyleChain::new(vec![scope]);
    let b = BoxNode { body: leaf(50, 100), width: Sizing::Auto, height: Smart::Auto };
    let frame = first_frame(b.layout(&styles, &unconstrained()));
    assert_eq!(frame.baseline(), 60);
    assert_eq!(frame.size(), Size { x: 50, y: 100 });
}

#[test]
fn baseline_shift_zero_is_no_op() {
    let mut scope = StyleScope::empty();
    scope.baseline = Some(RelAbs { ratio: 0, abs: 0 });
    let styles = StyleChain::new(vec![scope]);
    let b = BoxNode { body: leaf(50, 100), width: Sizing::Auto, height: Smart::Auto };
    let frame = first_frame(b.layout(&styles, &unconstrained()));
    assert_eq!(frame.baseline(), 100);
}

#[test]
fn inset_zero_identical_to_uninset() {
    let mut scope = StyleScope::empty();
    scope.inset.left = Some(RelAbs { ratio: 0, abs: 0 });
    scope.inset.top = Some(RelAbs { ratio: 0, abs: 0 });
    scope.inset.right = Some(RelAbs { ratio: 0, abs: 0 });
    scope.inset.bottom = Some(RelAbs { ratio: 0, abs: 0 });
    let with_zero = StyleChain::new(vec![scope]);
    let b = BoxNode { body: leaf(50, 30), width: Sizing::Auto, height: Smart::Auto };
    let inset_frame = first_frame(b.layout(&with_zero, &unconstrained()));
    let plain_frame = first_frame(b.layout(&no_styles(), &unconstrained()));
    assert_eq!(inset_frame.size(), plain_frame.size());
    assert_eq!(inset_frame.baseline(), plain_frame.baseline());
}

#[test]
fn inset_pads_content() {
    // An absolute inset of 10 on every side grows the frame by 20 on each
    // axis and moves the content element to (10, 10).
    let mut scope = StyleScope::empty();
    let ten = RelAbs { ratio: 0, abs: 10 };
    scope.inset = container_layout::geom::Sides {
        left: Some(ten),
        top: Some(ten),
        right: Some(ten),
        bottom: Some(ten),
    };
    let styles = StyleChain::new(vec![scope]);
    let b = BoxNode { body: leaf(50, 30), width: Sizing::Auto, height: Smart::Auto };
    let frame = first_frame(b.layout(&styles, &unconstrained()));
    assert_eq!(frame.size(), Size { x: 70, y: 50 });
    assert_eq!(frame.baseline(), 40);
    let element = frame
        .items
        .iter()
        .find(|(_, item)| matches!(item, FrameItem::Element(_)))
        .expect("the content element is kept");
    assert_eq!(element.0, Point { x: 10, y: 10 });
}

#[test]
fn decoration_independence() {
    // Toggling the fill changes only the decoration layer, never the
    // frame's size or baseline.
    let mut scope = StyleScope::empty();
    scope.fill = Some(Some(Paint { color: 0xff0000ff }));
    let filled = StyleChain::new(vec![scope]);
    let b = BoxNode { body: leaf(50, 30), width: Sizing::Auto, height: Smart::Auto };
    let plain_frame = first_frame(b.layout(&no_styles(), &unconstrained()));
    let filled_frame = first_frame(b.layout(&filled, &unconstrained()));
    assert_eq!(filled_frame.size(), plain_frame.size());
    assert_eq!(filled_frame.baseline(), plain_frame.baseline());
    let plain_decor = plain_frame
        .items
        .iter()
        .filter(|(_, item)| matches!(item, FrameItem::Decoration(_)))
        .count();
    let filled_decor = filled_frame
        .items
        .iter()
        .filter(|(_, item)| matches!(item, FrameItem::Decoration(_)))
        .count();
    assert_eq!(plain_decor, 0);
    assert_eq!(filled_decor, 1);
}

#[test]
fn decoration_values() {
    // With a fill and an absolute outset of 5, the decoration sits at
    // (-5, -5) and spans the frame grown by 10 on each axis.
    let mut scope = StyleScope::empty();
    let paint = Paint { color: 0x00ff00ff };
    scope.fill = Some(Some(paint));
    let five = RelAbs { ratio: 0, abs: 5 };
    scope.outset = container_layout::geom::Sides {
        left: Some(five),
        top: Some(five),
        right: Some(five),
        bottom: Some(five),
    };
    let styles = StyleChain::new(vec![scope]);
    let b = BoxNode { body: leaf(50, 30), width: Sizing::Auto, height: Smart::Auto };
    let frame = first_frame(b.layout(&styles, &unconstrained()));
    let (pos, item) = frame
        .items
        .iter()
        .find(|(_, item)| matches!(item, FrameItem::Decoration(_)))
        .expect("a visible fill decorates the frame");
    assert_eq!(*pos, Point { x: -5, y: -5 });
    match item {
        FrameItem::Decoration(d) => {
            assert_eq!(d.fill, Some(paint));
            assert_eq!(d.size, Size { x: 60, y: 40 });
        }
        _ => unreachable!(),
    }
}

#[test]
fn metadata_attached() {
    let mut scope = StyleScope::empty();
    scope.sticky = Some(true);
    let styles = StyleChain::new(vec![scope]);
    let b = BoxNode { body: leaf(50, 30), width: Sizing::Auto, height: Smart::Auto };
    let frame = first_frame(b.layout(&styles, &unconstrained()));
    match &frame.items[0] {
        (_, FrameItem::Meta(attached)) => {
            assert_eq!(attached.scopes.len(), 1);
            assert_eq!(attached.scopes[0].sticky, Some(true));
        }
        other => panic!("metadata comes first, got {:?}", other),
    }
}

#[test]
fn box_single_region_contract() {
    // Content that returns more than one frame is rejected, never
    // truncated.
    let multi = Content::Multi(Box::new(MultiNode {
        pieces: vec![Size { x: 10, y: 10 }, Size { x: 10, y: 20 }],
    }));
    let b = BoxNode { body: multi, width: Sizing::Auto, height: Smart::Auto };
    let out = b.layout(&no_styles(), &unconstrained());
    assert_eq!(out.unwrap_err(), LayoutError::RegionCountMismatch);
}

#[test]
fn content_failure_propagates() {
    let b = BoxNode { body: Content::Fail(42), width: Sizing::Auto, height: Smart::Auto };
    assert_eq!(
        b.layout(&no_styles(), &unconstrained()).unwrap_err(),
        LayoutError::ContentFailure(42)
    );
    let blk = BlockNode { body: Content::Fail(7) };
    assert_eq!(
        blk.layout(&no_styles(), &unconstrained()).unwrap_err(),
        LayoutError::ContentFailure(7)
    );
}

#[test]
fn block_multi_region_pass_through() {
    // A block whose content splits across three regions returns exactly
    // three frames, each independently decorated with the same fill.
    let pieces = vec![
        Size { x: 100, y: 40 },
        Size { x: 100, y: 40 },
        Size { x: 100, y: 15 },
    ];
    let blk = BlockNode { body: Content::Multi(Box::new(MultiNode { pieces })) };
    let mut scope = StyleScope::empty();
    let paint = Paint { color: 0x123456ff };
    scope.fill = Some(Some(paint));
    let styles = StyleChain::new(vec![scope]);
    let regions = Regions::new(
        vec![Size { x: 100, y: 40 }, Size { x: 100, y: 40 }, Size { x: 100, y: 40 }],
        Axes { x: Some(100), y: Some(40) },
        Axes { x: false, y: false },
    );
    let frag = blk.layout(&styles, &regions).expect("block layout succeeds");
    assert_eq!(frag.frames.len(), 3);
    for frame in &frag.frames {
        assert!(matches!(frame.items[0].1, FrameItem::Meta(_)));
        match &frame.items[1].1 {
            FrameItem::Decoration(d) => assert_eq!(d.fill, Some(paint)),
            other => panic!("each frame is decorated, got {:?}", other),
        }
    }
    assert_eq!(frag.frames[2].size(), Size { x: 100, y: 15 });
}

#[test]
fn block_spans_region_sizes() {
    // Past the last offered region, the last size repeats.
    let pieces = vec![Size { x: 10, y: 5 }, Size { x: 10, y: 5 }, Size { x: 10, y: 5 }];
    let blk = BlockNode { body: Content::Multi(Box::new(MultiNode { pieces })) };
    let regions = Regions::new(
        vec![Size { x: 80, y: 50 }, Size { x: 60, y: 30 }],
        Axes { x: Some(80), y: Some(50) },
        Axes { x: true, y: true },
    );
    let frag = blk.layout(&no_styles(), &regions).expect("block layout succeeds");
    assert_eq!(frag.frames.len(), 3);
    assert_eq!(frag.frames[0].size(), Size { x: 80, y: 50 });
    assert_eq!(frag.frames[1].size(), Size { x: 60, y: 30 });
    assert_eq!(frag.frames[2].size(), Size { x: 60, y: 30 });
}

#[test]
fn resolve_sizing_per_axis() {
    let region = Regions::new(
        vec![Size { x: 300, y: 200 }],
        Axes { x: Some(100), y: None },
        Axes { x: false, y: false },
    );
    let r = container_layout::layout::resolve_sizing(
        Sizing::Rel(RelAbs { ratio: 500, abs: 5 }),
        Smart::Custom(RelAbs { ratio: 0, abs: 9 }),
        &region,
    );
    assert_eq!(r.x, Some(55));
    // the vertical base is unresolved, so the height stays absent.
    assert_eq!(r.y, None);
    let auto = container_layout::layout::resolve_sizing(Sizing::Auto, Smart::Auto, &region);
    assert_eq!(auto, Axes { x: None, y: None });
    let fr = container_layout::layout::resolve_sizing(Sizing::Fr(2), Smart::Auto, &region);
    assert_eq!(fr.x, Some(300));
}

#[test]
fn block_inset_grows_split_frames() {
    // A block inset grows every frame of split content, each independently.
    let mut scope = StyleScope::empty();
    let four = RelAbs { ratio: 0, abs: 4 };
    scope.inset = container_layout::geom::Sides {
        left: Some(four),
        top: Some(four),
        right: Some(four),
        bottom: Some(four),
    };
    let styles = StyleChain::new(vec![scope]);
    let pieces = vec![Size { x: 20, y: 10 }, Size { x: 20, y: 6 }];
    let blk = BlockNode { body: Content::Multi(Box::new(MultiNode { pieces })) };
    let frag = blk.layout(&styles, &unconstrained()).expect("block layout succeeds");
    assert_eq!(frag.frames.len(), 2);
    assert_eq!(frag.frames[0].size(), Size { x: 28, y: 18 });
    assert_eq!(frag.frames[1].size(), Size { x: 28, y: 14 });
}

#[test]
fn construct_defaults() {
    let b = BoxNode::construct(None, None, None);
    assert_eq!(b.width, Sizing::Auto);
    assert_eq!(b.height, Smart::Auto);
    assert_eq!(
        b.body,
        Content::Elem(ElemNode { natural: Size { x: 0, y: 0 }, id: 0 })
    );
    let blk = BlockNode::construct(Some(leaf(1, 2)));
    assert_eq!(blk.body, leaf(1, 2));
}

#[test]
fn construct_with_arguments() {
    let width = Sizing::Fr(2);
    let height = Smart::Custom(RelAbs { ratio: 0, abs: 9 });
    let b = BoxNode::construct(Some(leaf(3, 4)), Some(width), Some(height));
    assert_eq!(b.body, leaf(3, 4));
    assert_eq!(b.width, width);
    assert_eq!(b.height, height);
}

#[test]
fn padded_wraps_without_mutation() {
    let sides = container_layout::geom::Sides {
        left: RelAbs { ratio: 0, abs: 1 },
        top: RelAbs { ratio: 0, abs: 2 },
        right: RelAbs { ratio: 0, abs: 3 },
        bottom: RelAbs { ratio: 0, abs: 4 },
    };
    let wrapped = leaf(5, 6).padded(sides);
    match wrapped {
        Content::Padded(p) => {
            assert_eq!(p.sides, sides);
            assert_eq!(p.body, leaf(5, 6));
        }
        other => panic!("expected a padding transform, got {:?}", other),
    }
}

#[test]
fn nested_boxes() {
    // An explicitly sized outer box expands an inner auto box, which
    // expands its own child in turn.
    let inner = BoxNode { body: leaf(10, 10), width: Sizing::Auto, height: Smart::Auto };
    let outer = BoxNode {
        body: Content::Boxed(Box::new(inner)),
        width: Sizing::Rel(RelAbs { ratio: 1000, abs: 0 }),
        height: Smart::Custom(RelAbs { ratio: 0, abs: 44 }),
    };
    let region = Regions::new(
        vec![Size { x: 90, y: 90 }],
        Axes { x: Some(90), y: Some(90) },
        Axes { x: false, y: false },
    );
    let frame = first_frame(outer.layout(&no_styles(), &region));
    assert_eq!(frame.size(), Size { x: 90, y: 44 });
}
