//! Cut geometry for a modular storage rack made of interlocking flat panels.
//!
//! Every length is an unsigned integer count of one unit chosen by the caller;
//! the rack entry point works in micrometres, so that fractional material
//! thicknesses stay exact.

mod arith;
pub mod geometry;
pub mod joinery;
pub mod container;
pub mod wing;
pub mod cover;
pub mod side_panel;
pub mod layout;
pub mod joints;
pub mod rack;
pub mod generator;

pub use container::{Container, ContainerDimensions, ContainerLink, find_container};
pub use geometry::{Document, Move, Outline, OutlineBuilder, Path, Point};
pub use joinery::Joinery;
pub use layout::{AssembledDimensions, GeneratedSvg};
pub use rack::{can_generate, generate_svg, try_generate_svg};
