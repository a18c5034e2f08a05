use vstd::prelude::*;

use vstd::multiset::Multiset;

use crate::prism::RectangularPrism;

verus! {

/// One axis-aligned rotation of a prism, as three swap flags.
///
/// A flag is set when it is nonzero. Applied in order, the flags swap
/// height with depth, then width with depth, then height with width.
#[derive(Debug, Clone, Copy, PartialEq, Eq, Structural)]
pub struct Orientation {
    pub x_axis: i32,
    pub y_axis: i32,
    pub z_axis: i32,
}

impl Orientation {
    /// The orientation with the given flags.
    pub open spec fn from_flags(x: i32, y: i32, z: i32) -> Orientation {
        Orientation { x_axis: x, y_axis: y, z_axis: z }
    }

    /// The orientation that leaves every dimension where it is.
    pub open spec fn identity() -> Orientation {
        Orientation::from_flags(0, 0, 0)
    }

    /// Replaces the three flags.
    pub fn set_orientation(&mut self, x: i32, y: i32, z: i32)
        ensures
            *final(self) == Orientation::from_flags(x, y, z),
    {
        self.x_axis = x;
        self.y_axis = y;
        self.z_axis = z;
    }

    /// The three flags, in axis order.
    pub fn get_orientation_tuple(&self) -> (r: (i32, i32, i32))
        ensures
            r == (self.x_axis, self.y_axis, self.z_axis),
    {
        (self.x_axis, self.y_axis, self.z_axis)
    }
}

impl Default for Orientation {
    fn default() -> (r: Orientation)
        ensures
            r == Orientation::identity(),
    {
        Orientation { x_axis: 0, y_axis: 0, z_axis: 0 }
    }
}

/// Builds the orientation whose flags are the given triple.
pub fn orientation_generator(flags: (i32, i32, i32)) -> (r: Orientation)
    ensures
        r == Orientation::from_flags(flags.0, flags.1, flags.2),
{
    let (x, y, z) = flags;
    Orientation { x_axis: x, y_axis: y, z_axis: z }
}

/// The prism `p` after the conditional swaps of `o`, each applied to the
/// result of the one before.
pub open spec fn rotated(p: RectangularPrism, o: Orientation) -> RectangularPrism {
    let a = if o.x_axis != 0 {
        RectangularPrism { height: p.depth, width: p.width, depth: p.height }
    } else {
        p
    };
    let b = if o.y_axis != 0 {
        RectangularPrism { height: a.height, width: a.depth, depth: a.width }
    } else {
        a
    };
    if o.z_axis != 0 {
        RectangularPrism { height: b.width, width: b.height, depth: b.depth }
    } else {
        b
    }
}

/// Something that can be turned into another orientation.
pub trait Rotation: Sized {
    spec fn spec_rotate(&self, orientation: Orientation) -> Self;

    fn rotate(&self, orientation: &Orientation) -> (r: Self)
        ensures
            r == self.spec_rotate(*orientation),
    ;
}

impl Rotation for RectangularPrism {
    open spec fn spec_rotate(&self, orientation: Orientation) -> RectangularPrism {
        rotated(*self, orientation)
    }

    fn rotate(&self, orientation: &Orientation) -> (r: RectangularPrism) {
        let mut rotated_height = self.height;
        let mut rotated_width = self.width;
        let mut rotated_depth = self.depth;
        if orientation.x_axis != 0 {
            let temp = rotated_height;
            rotated_height = rotated_depth;
            rotated_depth = temp;
        }
        if orientation.y_axis != 0 {
            let temp = rotated_width;
            rotated_width = rotated_depth;
            rotated_depth = temp;
        }
        if orientation.z_axis != 0 {
            let temp = rotated_height;
            rotated_height = rotated_width;
            rotated_width = temp;
        }
        RectangularPrism { height: rotated_height, width: rotated_width, depth: rotated_depth }
    }
}

/// The three dimensions of a prism, with repetition and without order.
pub open spec fn dimension_multiset(p: RectangularPrism) -> Multiset<u32> {
    Multiset::empty().insert(p.height).insert(p.width).insert(p.depth)
}

/// The six orientations a search tries, in the order it tries them.
pub open spec fn canonical_orientations() -> Seq<Orientation> {
    seq![
        Orientation::from_flags(0, 0, 0),
        Orientation::from_flags(1, 0, 0),
        Orientation::from_flags(1, 1, 0),
        Orientation::from_flags(1, 0, 1),
        Orientation::from_flags(0, 0, 1),
        Orientation::from_flags(0, 1, 0),
    ]
}

/// Rotation keeps the three dimension values: the result is a permutation
/// of the input, with no value invented or dropped.
pub proof fn lemma_rotation_permutes_dimensions(p: RectangularPrism, o: Orientation)
    ensures
        dimension_multiset(rotated(p, o)) =~= dimension_multiset(p),
{
    let e = Multiset::<u32>::empty();
    let (h, w, d) = (p.height, p.width, p.depth);
    assert(e.insert(d).insert(w).insert(h) =~= e.insert(h).insert(w).insert(d));
    assert(e.insert(d).insert(h).insert(w) =~= e.insert(h).insert(w).insert(d));
    assert(e.insert(w).insert(d).insert(h) =~= e.insert(h).insert(w).insert(d));
    assert(e.insert(w).insert(h).insert(d) =~= e.insert(h).insert(w).insert(d));
    assert(e.insert(h).insert(d).insert(w) =~= e.insert(h).insert(w).insert(d));
    assert(e.insert(d).insert(h).insert(w) =~= e.insert(h).insert(w).insert(d));
}

/// Rotating by the identity orientation gives the prism back unchanged.
pub proof fn lemma_identity_rotation(p: RectangularPrism)
    ensures
        rotated(p, Orientation::identity()) == p,
{
}

/// On a prism whose dimensions differ pairwise, no two of the six canonical
/// orientations give the same rotated prism.
pub proof fn lemma_canonical_orientations_distinct(p: RectangularPrism, i: int, j: int)
    requires
        p.height != p.width,
        p.height != p.depth,
        p.width != p.depth,
        0 <= i < 6,
        0 <= j < 6,
        i != j,
    ensures
        rotated(p, canonical_orientations()[i]) != rotated(p, canonical_orientations()[j]),
{
}

} // verus!
