use boxpacker::{
    find_optimal_orientation, orientation_generator, packable_units, BoxPacker, Container,
    Orientation, PackError, Product, RectangularPrism, Rotation, Volume,
};

fn prism(height: u32, width: u32, depth: u32) -> RectangularPrism {
    RectangularPrism::new(height, width, depth).unwrap()
}

fn sorted_dims(p: RectangularPrism) -> Vec<u32> {
    let mut v = vec![p.height, p.width, p.depth];
    v.sort();
    v
}

#[test]
fn volume_is_product_of_dimensions() {
    assert_eq!(prism(2, 3, 4).get_volume(), 24);
    assert_eq!(prism(1, 1, 1).get_volume(), 1);
    let m = u32::MAX as u128;
    assert_eq!(prism(u32::MAX, u32::MAX, u32::MAX).get_volume(), m * m * m);
}

#[test]
fn container_volume() {
    let c = Container::new(prism(10, 10, 2));
    assert_eq!(c.get_volume(), 200);
    assert_eq!(c.dimensions(), prism(10, 10, 2));
}

#[test]
fn zero_height_is_rejected() {
    assert_eq!(RectangularPrism::new(0, 5, 5), Err(PackError::InvalidDimension));
    assert_eq!(RectangularPrism::new(5, 0, 5), Err(PackError::InvalidDimension));
    assert_eq!(RectangularPrism::new(5, 5, 0), Err(PackError::InvalidDimension));
    assert_eq!(
        RectangularPrism::new(1, 2, 3),
        Ok(RectangularPrism { height: 1, width: 2, depth: 3 })
    );
}

#[test]
fn packer_rejects_zero_dimension_before_search() {
    let bad = RectangularPrism { height: 0, width: 1, depth: 1 };
    let good = prism(1, 1, 1);
    let r = BoxPacker::new(Container::new(good), Product::new(bad));
    assert_eq!(r.unwrap_err(), PackError::InvalidDimension);
    let r = BoxPacker::new(Container::new(bad), Product::new(good));
    assert_eq!(r.unwrap_err(), PackError::InvalidDimension);
    assert!(BoxPacker::new(Container::new(good), Product::new(good)).is_ok());
}

#[test]
fn zero_product_dimension_is_a_domain_error() {
    let c = prism(10, 10, 10);
    let p = RectangularPrism { height: 1, width: 0, depth: 1 };
    assert_eq!(packable_units(&c, &p), Err(PackError::DomainError));
    let packer = BoxPacker::new(Container::new(c), Product::new(prism(1, 1, 1))).unwrap();
    assert_eq!(packer.get_num_products_packable(p), Err(PackError::DomainError));
}

#[test]
fn identity_rotation_is_no_op() {
    let p = prism(3, 5, 7);
    assert_eq!(p.rotate(&Orientation::default()), p);
    assert_eq!(p.rotate(&orientation_generator((0, 0, 0))), p);
}

#[test]
fn each_canonical_rotation() {
    let p = prism(1, 2, 3);
    let cases = [
        ((1, 0, 0), (3, 2, 1)),
        ((1, 1, 0), (3, 1, 2)),
        ((1, 0, 1), (2, 3, 1)),
        ((0, 0, 1), (2, 1, 3)),
        ((0, 1, 0), (1, 3, 2)),
    ];
    for (flags, (h, w, d)) in cases {
        assert_eq!(p.rotate(&orientation_generator(flags)), prism(h, w, d));
    }
}

#[test]
fn rotations_permute_dimensions_and_reach_all_six() {
    let p = prism(4, 9, 6);
    let codes = [(0, 0, 0), (1, 0, 0), (1, 1, 0), (1, 0, 1), (0, 0, 1), (0, 1, 0)];
    let mut seen: Vec<RectangularPrism> = Vec::new();
    for code in codes {
        let r = p.rotate(&orientation_generator(code));
        assert_eq!(sorted_dims(r), vec![4, 6, 9]);
        assert!(!seen.contains(&r));
        seen.push(r);
    }
    assert_eq!(seen.len(), 6);
}

#[test]
fn orientation_flags_round_trip() {
    let mut o = Orientation::default();
    assert_eq!(o.get_orientation_tuple(), (0, 0, 0));
    o.set_orientation(1, 0, 1);
    assert_eq!(o.get_orientation_tuple(), (1, 0, 1));
    assert_eq!(o, orientation_generator((1, 0, 1)));
}

#[test]
fn packable_units_floors_each_axis() {
    let c = prism(10, 10, 2);
    assert_eq!(packable_units(&c, &prism(1, 1, 3)), Ok(0));
    assert_eq!(packable_units(&c, &prism(3, 1, 1)), Ok(60));
    assert_eq!(packable_units(&prism(7, 8, 9), &prism(2, 3, 4)), Ok(3 * 2 * 2));
    let m = u32::MAX as u128;
    assert_eq!(
        packable_units(&prism(u32::MAX, u32::MAX, u32::MAX), &prism(1, 1, 1)),
        Ok(m * m * m)
    );
}

#[test]
fn cube_ties_keep_identity() {
    let r = find_optimal_orientation(&prism(10, 10, 10), &prism(5, 5, 5));
    assert_eq!(r.get_orientation_tuple(), (0, 0, 0));
    assert_eq!(packable_units(&prism(10, 10, 10), &prism(5, 5, 5)), Ok(8));
}

#[test]
fn nothing_fits_gives_identity_and_zero() {
    let c = prism(1, 1, 1);
    let p = prism(2, 2, 2);
    let mut packer = BoxPacker::new(Container::new(c), Product::new(p)).unwrap();
    let r = packer.get_optimal_orientation();
    assert_eq!(r.get_orientation_tuple(), (0, 0, 0));
    let dims = packer.product().get_rotated_dimensions();
    assert_eq!(packer.get_num_products_packable(dims), Ok(0));
}

#[test]
fn rotation_changes_packability() {
    let c = prism(10, 10, 2);
    let p = prism(1, 1, 3);
    let mut packer = BoxPacker::new(Container::new(c), Product::new(p)).unwrap();
    assert_eq!(packer.get_num_products_packable(p), Ok(0));
    let r = packer.get_optimal_orientation();
    assert_eq!(r.get_orientation_tuple(), (1, 0, 0));
    assert_eq!(packer.product().orientation(), r);
    assert_eq!(packer.product().dimensions(), p);
    let dims = packer.product().get_rotated_dimensions();
    assert_eq!(dims, prism(3, 1, 1));
    assert_eq!(packer.get_num_products_packable(dims), Ok(60));
}

#[test]
fn later_orientation_wins_when_strictly_better() {
    // Only the last canonical orientation (width and depth swapped) fits.
    let r = find_optimal_orientation(&prism(1, 2, 3), &prism(1, 3, 2));
    assert_eq!(r.get_orientation_tuple(), (0, 1, 0));
}

#[test]
fn search_is_deterministic() {
    let c = prism(17, 23, 5);
    let p = prism(4, 3, 7);
    let a = find_optimal_orientation(&c, &p);
    let b = find_optimal_orientation(&c, &p);
    assert_eq!(a, b);
}

#[test]
fn new_product_starts_in_identity() {
    let p = Product::new(prism(2, 3, 4));
    assert_eq!(p.orientation(), Orientation::default());
    assert_eq!(p.get_rotated_dimensions(), prism(2, 3, 4));
}
