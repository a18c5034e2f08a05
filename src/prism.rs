use vstd::prelude::*;

use crate::error::PackError;

verus! {

/// A rectangular solid, measured along three named axes.
#[derive(Debug, Clone, Copy, PartialEq, Eq, Structural)]
pub struct RectangularPrism {
    pub height: u32,
    pub width: u32,
    pub depth: u32,
}

/// The product of the three dimensions of a solid.
pub open spec fn volume_of(h: u32, w: u32, d: u32) -> int {
    h as int * w as int * d as int
}

/// Something with a volume.
pub trait Volume {
    spec fn spec_volume(&self) -> int;

    fn get_volume(&self) -> (r: u128)
        ensures
            r as int == self.spec_volume(),
    ;
}

impl RectangularPrism {
    /// Every dimension is strictly positive: only such a prism takes part in packing.
    pub open spec fn is_valid(self) -> bool {
        self.height > 0 && self.width > 0 && self.depth > 0
    }

    /// Whether every dimension is strictly positive.
    pub fn is_valid_exec(&self) -> (r: bool)
        ensures
            r == self.is_valid(),
    {
        self.height > 0 && self.width > 0 && self.depth > 0
    }

    /// Builds a prism, rejecting any dimension that is zero.
    pub fn new(height: u32, width: u32, depth: u32) -> (r: Result<RectangularPrism, PackError>)
        ensures
            height > 0 && width > 0 && depth > 0 <==> r.is_ok(),
            r.is_ok() ==> r.unwrap() == (RectangularPrism { height, width, depth }),
            r.is_err() ==> r == Err::<RectangularPrism, PackError>(PackError::InvalidDimension),
    {
        if height == 0 || width == 0 || depth == 0 {
            Err(PackError::InvalidDimension)
        } else {
            Ok(RectangularPrism { height, width, depth })
        }
    }
}

impl Volume for RectangularPrism {
    open spec fn spec_volume(&self) -> int {
        volume_of(self.height, self.width, self.depth)
    }

    fn get_volume(&self) -> (r: u128) {
        let h = self.height as u128;
        let w = self.width as u128;
        let d = self.depth as u128;
        assert(h * w <= 0xffff_ffff_ffff_ffff_u128) by (nonlinear_arith)
            requires
                h <= 0xffff_ffff_u128,
                w <= 0xffff_ffff_u128,
        ;
        assert(h * w * d <= 0xffff_ffff_ffff_ffff_ffff_ffff_u128) by (nonlinear_arith)
            requires
                h * w <= 0xffff_ffff_ffff_ffff_u128,
                d <= 0xffff_ffff_u128,
        ;
        h * w * d
    }
}

} // verus!
