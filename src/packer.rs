use vstd::prelude::*;

use crate::error::PackError;
use crate::orientation::{rotated, Orientation, Rotation};
use crate::prism::{RectangularPrism, Volume};
use crate::search::{
    find_optimal_orientation, is_optimal_orientation, packable_count, packable_units,
};

verus! {

/// An item to be packed: its dimensions as measured, and the orientation
/// it is currently assigned.
#[derive(Debug, Clone, Copy, PartialEq, Eq, Structural)]
pub struct Product {
    dimensions: RectangularPrism,
    orientation: Orientation,
}

impl Product {
    pub closed spec fn spec_dimensions(self) -> RectangularPrism {
        self.dimensions
    }

    pub closed spec fn spec_orientation(self) -> Orientation {
        self.orientation
    }

    /// A product with the given dimensions, in the identity orientation.
    pub fn new(dimensions: RectangularPrism) -> (r: Product)
        ensures
            r.spec_dimensions() == dimensions,
            r.spec_orientation() == Orientation::identity(),
    {
        Product { dimensions, orientation: Orientation::default() }
    }

    /// The dimensions as measured, before any rotation.
    pub fn dimensions(&self) -> (r: RectangularPrism)
        ensures
            r == self.spec_dimensions(),
    {
        self.dimensions
    }

    /// The orientation currently assigned.
    pub fn orientation(&self) -> (r: Orientation)
        ensures
            r == self.spec_orientation(),
    {
        self.orientation
    }

    /// The dimensions that take part in packing: those measured, rotated by
    /// the assigned orientation.
    pub fn get_rotated_dimensions(&self) -> (r: RectangularPrism)
        ensures
            r == rotated(self.spec_dimensions(), self.spec_orientation()),
    {
        self.dimensions.rotate(&self.orientation)
    }
}

/// The fixed space into which products are packed; it is never rotated.
#[derive(Debug, Clone, Copy, PartialEq, Eq, Structural)]
pub struct Container {
    dimensions: RectangularPrism,
}

impl Container {
    pub closed spec fn spec_dimensions(self) -> RectangularPrism {
        self.dimensions
    }

    /// A container with the given dimensions.
    pub fn new(dimensions: RectangularPrism) -> (r: Container)
        ensures
            r.spec_dimensions() == dimensions,
    {
        Container { dimensions }
    }

    /// The container's dimensions.
    pub fn dimensions(&self) -> (r: RectangularPrism)
        ensures
            r == self.spec_dimensions(),
    {
        self.dimensions
    }

    /// The volume of the container.
    pub fn get_volume(&self) -> (r: u128)
        ensures
            r as int == self.spec_dimensions().spec_volume(),
    {
        self.dimensions.get_volume()
    }
}

/// One packing scenario: a container and the product to pack into it,
/// both with strictly positive dimensions.
#[derive(Debug)]
pub struct BoxPacker {
    container: Container,
    product: Product,
}

impl BoxPacker {
    #[verifier::type_invariant]
    spec fn dimensions_valid(self) -> bool {
        self.container.dimensions.is_valid() && self.product.dimensions.is_valid()
    }

    pub closed spec fn spec_container(self) -> Container {
        self.container
    }

    pub closed spec fn spec_product(self) -> Product {
        self.product
    }

    /// Starts a scenario, rejecting a container or product with a zero
    /// dimension before any search.
    pub fn new(container: Container, product: Product) -> (r: Result<BoxPacker, PackError>)
        ensures
            container.spec_dimensions().is_valid() && product.spec_dimensions().is_valid()
                <==> r.is_ok(),
            r.is_ok() ==> r.unwrap().spec_container() == container && r.unwrap().spec_product()
                == product,
            r.is_err() ==> r == Err::<BoxPacker, PackError>(PackError::InvalidDimension),
    {
        if container.dimensions.is_valid_exec() && product.dimensions.is_valid_exec() {
            Ok(BoxPacker { container, product })
        } else {
            Err(PackError::InvalidDimension)
        }
    }

    /// The container of this scenario.
    pub fn container(&self) -> (r: &Container)
        ensures
            *r == self.spec_container(),
    {
        &self.container
    }

    /// The product of this scenario.
    pub fn product(&self) -> (r: &Product)
        ensures
            *r == self.spec_product(),
    {
        &self.product
    }

    /// Finds the orientation of the product that fits the most copies into
    /// the container, assigns it to the product and returns it.
    pub fn get_optimal_orientation(&mut self) -> (r: Orientation)
        ensures
            is_optimal_orientation(
                old(self).spec_container().spec_dimensions(),
                old(self).spec_product().spec_dimensions(),
                r,
            ),
            final(self).spec_container() == old(self).spec_container(),
            final(self).spec_product().spec_dimensions()
                == old(self).spec_product().spec_dimensions(),
            final(self).spec_product().spec_orientation() == r,
    {
        proof {
            use_type_invariant(&*self);
        }
        let best = find_optimal_orientation(&self.container.dimensions, &self.product.dimensions);
        self.product.orientation = best;
        best
    }

    /// How many copies of a product with the given dimensions fit into the
    /// container by grid division.
    pub fn get_num_products_packable(&self, prod_dimensions: RectangularPrism) -> (r: Result<
        u128,
        PackError,
    >)
        ensures
            prod_dimensions.is_valid() <==> r.is_ok(),
            r.is_ok() ==> r.unwrap() as int == packable_count(
                self.spec_container().spec_dimensions(),
                prod_dimensions,
            ),
            r.is_err() ==> r == Err::<u128, PackError>(PackError::DomainError),
    {
        packable_units(&self.container.dimensions, &prod_dimensions)
    }
}

} // verus!
