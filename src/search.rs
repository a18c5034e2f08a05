use vstd::prelude::*;

use crate::error::PackError;
use crate::orientation::{
    canonical_orientations, orientation_generator, rotated, Orientation, Rotation,
};
use crate::prism::RectangularPrism;

verus! {

/// How many copies of `product`, as it stands, fit into `container` on a
/// uniform grid: the floored quotient along each axis, multiplied.
pub open spec fn packable_count(container: RectangularPrism, product: RectangularPrism) -> int {
    (container.width / product.width) as int * (container.depth / product.depth) as int * (
    container.height / product.height) as int
}

/// The count for the `i`-th canonical orientation of `product`.
pub open spec fn count_at(container: RectangularPrism, product: RectangularPrism, i: int) -> int {
    packable_count(container, rotated(product, canonical_orientations()[i]))
}

/// The `i`-th canonical orientation reaches the largest count of all six,
/// and every orientation tried before it reaches strictly less.
pub open spec fn is_first_best_index(
    container: RectangularPrism,
    product: RectangularPrism,
    i: int,
) -> bool {
    &&& 0 <= i < 6
    &&& forall|j: int| 0 <= j < 6 ==> #[trigger] count_at(container, product, j) <= count_at(
        container,
        product,
        i,
    )
    &&& forall|j: int| 0 <= j < i ==> #[trigger] count_at(container, product, j) < count_at(
        container,
        product,
        i,
    )
}

/// `o` is the orientation a search selects: the first of the canonical
/// orientations, in search order, whose count is the largest.
pub open spec fn is_optimal_orientation(
    container: RectangularPrism,
    product: RectangularPrism,
    o: Orientation,
) -> bool {
    exists|i: int| is_first_best_index(container, product, i) && o == canonical_orientations()[i]
}

/// The grid count for a product with no zero dimension.
fn count_units(container: &RectangularPrism, product: &RectangularPrism) -> (r: u128)
    requires
        product.is_valid(),
    ensures
        r as int == packable_count(*container, *product),
{
    let columns = (container.width / product.width) as u128;
    let rows = (container.depth / product.depth) as u128;
    let layers = (container.height / product.height) as u128;
    assert(columns * rows <= 0xffff_ffff_ffff_ffff_u128) by (nonlinear_arith)
        requires
            columns <= 0xffff_ffff_u128,
            rows <= 0xffff_ffff_u128,
    ;
    assert(columns * rows * layers <= 0xffff_ffff_ffff_ffff_ffff_ffff_u128) by (nonlinear_arith)
        requires
            columns * rows <= 0xffff_ffff_ffff_ffff_u128,
            layers <= 0xffff_ffff_u128,
    ;
    columns * rows * layers
}

/// How many copies of `product` fit into `container` by grid division;
/// a product with a zero dimension has no such count.
pub fn packable_units(container: &RectangularPrism, product: &RectangularPrism) -> (r: Result<
    u128,
    PackError,
>)
    ensures
        product.is_valid() <==> r.is_ok(),
        r.is_ok() ==> r.unwrap() as int == packable_count(*container, *product),
        r.is_err() ==> r == Err::<u128, PackError>(PackError::DomainError),
{
    if product.width == 0 || product.depth == 0 || product.height == 0 {
        Err(PackError::DomainError)
    } else {
        Ok(count_units(container, product))
    }
}

/// Tries the six canonical orientations of `product` in search order and
/// returns the first one that fits the most copies into `container`.
pub fn find_optimal_orientation(container: &RectangularPrism, product: &RectangularPrism) -> (r:
    Orientation)
    requires
        product.is_valid(),
    ensures
        is_optimal_orientation(*container, *product, r),
{
    let candidates: Vec<Orientation> = vec![
        orientation_generator((0, 0, 0)),
        orientation_generator((1, 0, 0)),
        orientation_generator((1, 1, 0)),
        orientation_generator((1, 0, 1)),
        orientation_generator((0, 0, 1)),
        orientation_generator((0, 1, 0)),
    ];
    assert(candidates@ =~= canonical_orientations());
    let mut best: Orientation = candidates[0];
    let mut best_count: u128 = count_units(container, product);
    let ghost mut best_index: int = 0;
    let mut i: usize = 1;
    while i < candidates.len()
        invariant
            candidates@ == canonical_orientations(),
            product.is_valid(),
            1 <= i <= 6,
            0 <= best_index < i,
            best == canonical_orientations()[best_index],
            best_count as int == count_at(*container, *product, best_index),
            forall|j: int| 0 <= j < i ==> #[trigger] count_at(*container, *product, j) <= best_count,
            forall|j: int| 0 <= j < best_index ==> #[trigger] count_at(*container, *product, j) < best_count,
        decreases candidates.len() - i,
    {
        let candidate = candidates[i];
        let dims = product.rotate(&candidate);
        let candidate_count = count_units(container, &dims);
        if candidate_count > best_count {
            best = candidate;
            best_count = candidate_count;
            proof {
                best_index = i as int;
            }
        }
        i = i + 1;
    }
    assert(is_first_best_index(*container, *product, best_index));
    best
}

/// The selected orientation is determined by the container and the product
/// alone: two results of the search on the same inputs are the same.
pub proof fn lemma_optimal_orientation_unique(
    container: RectangularPrism,
    product: RectangularPrism,
    a: Orientation,
    b: Orientation,
)
    requires
        is_optimal_orientation(container, product, a),
        is_optimal_orientation(container, product, b),
    ensures
        a == b,
{
    let i = choose|i: int|
        is_first_best_index(container, product, i) && a == canonical_orientations()[i];
    let j = choose|j: int|
        is_first_best_index(container, product, j) && b == canonical_orientations()[j];
    assert(count_at(container, product, i) <= count_at(container, product, j));
    assert(count_at(container, product, j) <= count_at(container, product, i));
    assert(i == j);
}

} // verus!
