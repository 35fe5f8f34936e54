//! Regions: the description of available space handed to a layout call.
//!
//! A region descriptor holds an ordered sequence of available sizes, one per
//! candidate output region — a single entry for inline contexts, several for
//! page-flow contexts —, a base size per axis used as the reference for
//! relative-length resolution (absent where an ancestor's size is itself
//! unresolved), and an expand flag per axis saying whether the produced frame
//! must fill the region exactly or may shrink to its content's natural size.

use vstd::prelude::*;
use crate::geom::{Size, Axes};

verus! {

/// The mathematical value of a region descriptor.
pub struct RegionsV {
    /// The available sizes, one per candidate output region.
    pub sizes: Seq<Size>,
    /// The base size per axis for relative-length resolution.
    pub base: Axes<Option<i64>>,
    /// Whether the produced frame must fill the region exactly, per axis.
    pub expand: Axes<bool>,
}

impl RegionsV {
    /// A region descriptor is well-formed when it offers at least one
    /// region.
    pub open spec fn wf(self) -> bool {
        self.sizes.len() >= 1
    }

    /// The size of the first region.
    pub open spec fn first(self) -> Size {
        self.sizes[0]
    }

    /// The size of the region at `i`; past the last region, the last size
    /// repeats.
    pub open spec fn at(self, i: int) -> Size {
        if 0 <= i < self.sizes.len() {
            self.sizes[i]
        } else {
            self.sizes[self.sizes.len() - 1]
        }
    }
}

/// The descriptor of a single region whose base equals its size.
pub open spec fn one_region(size: Size, expand: Axes<bool>) -> RegionsV {
    RegionsV {
        sizes: seq![size],
        base: Axes { x: Some(size.x), y: Some(size.y) },
        expand,
    }
}

/// A region descriptor: available sizes, base size, and expand flags.
#[derive(Debug, PartialEq, Eq)]
pub struct Regions {
    /// The available sizes, one per candidate output region.
    pub sizes: Vec<Size>,
    /// The base size per axis for relative-length resolution.
    pub base: Axes<Option<i64>>,
    /// Whether the produced frame must fill the region exactly, per axis.
    pub expand: Axes<bool>,
}

impl View for Regions {
    type V = RegionsV;

    open spec fn view(&self) -> RegionsV {
        RegionsV { sizes: self.sizes@, base: self.base, expand: self.expand }
    }
}

impl Regions {
    /// A descriptor over the given region sizes.
    pub fn new(sizes: Vec<Size>, base: Axes<Option<i64>>, expand: Axes<bool>) -> (r: Regions)
        ensures
            r@ == (RegionsV { sizes: sizes@, base, expand }),
    {
        Regions { sizes, base, expand }
    }

    /// A descriptor of a single region whose base equals its size.
    pub fn one(size: Size, expand: Axes<bool>) -> (r: Regions)
        ensures
            r@ == one_region(size, expand),
    {
        let mut sizes: Vec<Size> = Vec::new();
        sizes.push(size);
        let r = Regions { sizes, base: Axes { x: Some(size.x), y: Some(size.y) }, expand };
        proof {
            assert(r@.sizes =~= one_region(size, expand).sizes);
        }
        r
    }

    /// The size of the first region.
    pub fn first(&self) -> (s: Size)
        requires
            self@.wf(),
        ensures
            s == self@.first(),
    {
        self.sizes[0]
    }

    /// The size of the region at `i`; past the last region, the last size
    /// repeats.
    pub fn at(&self, i: usize) -> (s: Size)
        requires
            self@.wf(),
        ensures
            s == self@.at(i as int),
    {
        if i < self.sizes.len() {
            self.sizes[i]
        } else {
            self.sizes[self.sizes.len() - 1]
        }
    }
}

} // verus!
