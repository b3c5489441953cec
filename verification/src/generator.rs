//! The wing sheet for the one box the rack was first built for: nothing but
//! the wing pairs, in whole millimetres.

use vstd::prelude::*;
use crate::arith::lemma_multiples_grow;
use crate::container::ContainerDimensions;
use crate::geometry::{Document, DocumentView};
use crate::joinery::Joinery;
use crate::wing::{
    generate_side_wing_band,
    generate_side_wing_pair,
    pair_height,
    side_wing_pair,
    wing_band,
    wing_pitch,
};

verus! {

/// Width of the box under its lid, in millimetres.
pub const BOX_WIDTH_UNDER_LID: usize = 155;

/// Width of the box with its lid on.
pub const BOX_WIDTH_WITH_LID: usize = 174;

/// Depth of the box.
pub const BOX_DEPTH: usize = 210;

/// Height of one box in a stack.
pub const BOX_BLOCK_HEIGHT: usize = 55;

/// From the top of the box down to its side wing.
pub const SIDE_WING_FROM_BOX_TOP: usize = 14;

/// How far the side wing of the box stands out.
pub const SIDE_WING_WIDTH: usize = 8;

/// The measures of the box, in millimetres.
pub open spec fn box_dimensions() -> ContainerDimensions {
    ContainerDimensions {
        width: BOX_WIDTH_WITH_LID,
        depth: BOX_DEPTH,
        height: BOX_BLOCK_HEIGHT,
        side_wing_from_box_top: SIDE_WING_FROM_BOX_TOP,
        side_wing_width: SIDE_WING_WIDTH,
    }
}

/// The measures of the box, in millimetres.
pub fn the_box() -> (dimensions: ContainerDimensions)
    ensures
        dimensions == box_dimensions(),
{
    ContainerDimensions {
        width: BOX_WIDTH_WITH_LID,
        depth: BOX_DEPTH,
        height: BOX_BLOCK_HEIGHT,
        side_wing_from_box_top: SIDE_WING_FROM_BOX_TOP,
        side_wing_width: SIDE_WING_WIDTH,
    }
}

/// The wing sheet for `boxes` boxes cut from material `t` millimetres thick:
/// as wide as the box is deep, one pitch high per box, with the wing pairs
/// stroked in black.
pub open spec fn wing_sheet(boxes: int, t: int) -> DocumentView {
    DocumentView {
        width: BOX_DEPTH as int,
        height: boxes * wing_pitch(Joinery::in_millimetres(), box_dimensions(), t),
        paths: wing_band(Joinery::in_millimetres(), box_dimensions(), t, "black"@, boxes as nat),
    }
}

/// Draws the wing pair of one box with its origin at
/// `(starting_point_x, starting_point_y)`, stroked in black.
pub fn generate_side_wings(
    document: &mut Document,
    starting_point_x: usize,
    starting_point_y: usize,
    material_thickness: usize,
)
    requires
        starting_point_x + BOX_DEPTH <= usize::MAX,
        starting_point_y + pair_height(
            Joinery::in_millimetres(),
            SIDE_WING_WIDTH as int,
            material_thickness as int,
        ) <= usize::MAX,
    ensures
        final(document)@ == old(document)@.with(
            side_wing_pair(
                Joinery::in_millimetres(),
                box_dimensions(),
                starting_point_x as int,
                starting_point_y as int,
                material_thickness as int,
                "black"@,
            ),
        ),
{
    generate_side_wing_pair(
        document,
        &the_box(),
        starting_point_x,
        starting_point_y,
        material_thickness,
        "black",
        &Joinery::millimetres(),
    );
}

/// Lays out the wing sheet for `rows` by `columns` boxes cut from material
/// `material_thickness` millimetres thick.
pub fn generate_svg(rows: usize, columns: usize, material_thickness: usize) -> (document: Document)
    requires
        rows * columns <= usize::MAX,
        wing_pitch(Joinery::in_millimetres(), box_dimensions(), material_thickness as int)
            <= usize::MAX,
        (rows * columns) * wing_pitch(
            Joinery::in_millimetres(),
            box_dimensions(),
            material_thickness as int,
        ) <= usize::MAX,
    ensures
        document@ == wing_sheet(rows * columns, material_thickness as int),
{
    let joinery = Joinery::millimetres();
    let dimensions = the_box();
    let ghost pitch = wing_pitch(joinery, dimensions, material_thickness as int);
    assert(0 <= rows * columns) by (nonlinear_arith);
    let amount_of_boxes: usize = rows * columns;
    proof {
        if 1 <= amount_of_boxes {
            lemma_multiples_grow(pitch, amount_of_boxes - 1, amount_of_boxes as int);
            lemma_multiples_grow(pitch, amount_of_boxes - 1, amount_of_boxes - 1);
            lemma_multiples_grow(pitch, amount_of_boxes as int, amount_of_boxes as int);
        }
    }
    let height_of_two_side_wings_with_clearance = SIDE_WING_WIDTH * 2 + material_thickness
        + joinery.clearance_between_paths + joinery.clearance_between_paths;

    let total_width = BOX_DEPTH;
    let total_height = amount_of_boxes * height_of_two_side_wings_with_clearance;

    let mut document = Document::new(total_width, total_height);
    generate_side_wing_band(
        &mut document,
        &dimensions,
        amount_of_boxes,
        material_thickness,
        "black",
        &joinery,
    );
    assert(document@.paths =~= wing_sheet(rows * columns, material_thickness as int).paths);
    document
}

} // verus!
