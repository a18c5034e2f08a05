//! Chooses the axis-aligned orientation of a rectangular product that lets
//! the most whole copies fit into a rectangular container by grid division.
//!
//! Dimensions are whole numbers of a fixed unit of length chosen by the
//! caller (for example thousandths of an inch); floored division of two
//! lengths does not depend on that unit as long as both use the same one.

pub mod error;
pub mod orientation;
pub mod packer;
pub mod prism;
pub mod search;

pub use error::PackError;
pub use orientation::{orientation_generator, Orientation, Rotation};
pub use packer::{BoxPacker, Container, Product};
pub use prism::{RectangularPrism, Volume};
pub use search::{find_optimal_orientation, packable_units};
