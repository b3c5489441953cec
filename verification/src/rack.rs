//! Racks for catalogue containers, cut to the micrometre.

use vstd::prelude::*;
pub use crate::container::{Container, ContainerDimensions, ContainerLink};
pub use crate::layout::{AssembledDimensions, GeneratedSvg};
use crate::joinery::{Joinery, MICROMETRES_PER_MILLIMETRE};
use crate::geometry::{all_closed_rectilinear, all_simple};
use crate::layout::{
    assemble,
    can_assemble,
    is_assembly,
    lemma_sheet_closed_rectilinear,
    lemma_sheet_path_count,
    lemma_sheet_simple,
    sheet_fits,
};

verus! {

/// A rack for a container of `dimensions` millimetres can be laid out in
/// micrometres.
pub open spec fn rack_fits(rows: int, columns: int, t: int, dimensions: ContainerDimensions) -> bool {
    &&& dimensions.scales_by(MICROMETRES_PER_MILLIMETRE as int)
    &&& sheet_fits(
        Joinery::in_micrometres(),
        dimensions.scaled(MICROMETRES_PER_MILLIMETRE as int),
        rows,
        columns,
        t,
    )
}

/// `generated` is the sheet and the envelope, both in micrometres, of the
/// rack of `rows` by `columns` containers of `dimensions` millimetres, cut
/// from material `t` micrometres thick with the standard joinery.
pub open spec fn is_rack(
    generated: GeneratedSvg,
    rows: int,
    columns: int,
    t: int,
    dimensions: ContainerDimensions,
    primary_color: Seq<char>,
    secondary_color: Seq<char>,
) -> bool {
    is_assembly(
        generated,
        Joinery::in_micrometres(),
        dimensions.scaled(MICROMETRES_PER_MILLIMETRE as int),
        rows,
        columns,
        t,
        primary_color,
        secondary_color,
    )
}

/// Lays out the cutting sheet of a rack of `rows` by `columns` of `container`
/// and computes the envelope of the assembled rack. The material thickness is
/// given in micrometres, and so are the sheet and the envelope; slots are
/// stroked in `primary_color`, outlines in `secondary_color`.
pub fn generate_svg(
    rows: usize,
    columns: usize,
    material_thickness: usize,
    container: &Container,
    primary_color: &str,
    secondary_color: &str,
) -> (generated: GeneratedSvg)
    requires
        rack_fits(rows as int, columns as int, material_thickness as int, container.dimensions),
    ensures
        is_rack(
            generated,
            rows as int,
            columns as int,
            material_thickness as int,
            container.dimensions,
            primary_color@,
            secondary_color@,
        ),
{
    let joinery = Joinery::micrometres();
    let dimensions = container.dimensions.scale(MICROMETRES_PER_MILLIMETRE);
    assemble(
        rows,
        columns,
        material_thickness,
        &dimensions,
        primary_color,
        secondary_color,
        &joinery,
    )
}

/// Decides whether `generate_svg` can lay out this rack.
pub fn can_generate(
    rows: usize,
    columns: usize,
    material_thickness: usize,
    container: &Container,
) -> (fits: bool)
    ensures
        fits == rack_fits(
            rows as int,
            columns as int,
            material_thickness as int,
            container.dimensions,
        ),
{
    if !container.dimensions.can_scale(MICROMETRES_PER_MILLIMETRE) {
        return false;
    }
    let joinery = Joinery::micrometres();
    let dimensions = container.dimensions.scale(MICROMETRES_PER_MILLIMETRE);
    can_assemble(rows, columns, material_thickness, &dimensions, &joinery)
}

/// Lays out the rack if it can be laid out, and says so if it cannot.
pub fn try_generate_svg(
    rows: usize,
    columns: usize,
    material_thickness: usize,
    container: &Container,
    primary_color: &str,
    secondary_color: &str,
) -> (generated: Option<GeneratedSvg>)
    ensures
        generated is Some <==> rack_fits(
            rows as int,
            columns as int,
            material_thickness as int,
            container.dimensions,
        ),
        generated matches Some(rack) ==> is_rack(
            rack,
            rows as int,
            columns as int,
            material_thickness as int,
            container.dimensions,
            primary_color@,
            secondary_color@,
        ),
{
    if can_generate(rows, columns, material_thickness, container) {
        Some(
            generate_svg(
                rows,
                columns,
                material_thickness,
                container,
                primary_color,
                secondary_color,
            ),
        )
    } else {
        None
    }
}

/// Two sheets generated from the same inputs are the same sheet, and their
/// envelopes are the same envelope.
pub proof fn lemma_generation_is_deterministic(
    first: GeneratedSvg,
    second: GeneratedSvg,
    rows: int,
    columns: int,
    t: int,
    dimensions: ContainerDimensions,
    primary_color: Seq<char>,
    secondary_color: Seq<char>,
)
    requires
        is_rack(first, rows, columns, t, dimensions, primary_color, secondary_color),
        is_rack(second, rows, columns, t, dimensions, primary_color, secondary_color),
    ensures
        first.assembled_dimensions == second.assembled_dimensions,
        first.document@ == second.document@,
{
}

/// The assembled width, in micrometres, is every container with its four
/// millimetres of play and one material thickness per side panel.
pub proof fn lemma_assembled_width(
    generated: GeneratedSvg,
    rows: int,
    columns: int,
    t: int,
    dimensions: ContainerDimensions,
    primary_color: Seq<char>,
    secondary_color: Seq<char>,
)
    requires
        dimensions.scales_by(MICROMETRES_PER_MILLIMETRE as int),
        is_rack(generated, rows, columns, t, dimensions, primary_color, secondary_color),
    ensures
        generated.assembled_dimensions.width == ((dimensions.width + 4) * columns) * 1000 + (
        columns + 1) * t,
{
    assert((dimensions.width * 1000 + 4000) * columns == ((dimensions.width + 4) * columns)
        * 1000) by (nonlinear_arith);
}

/// The assembled height, in micrometres, is every row and two material
/// thicknesses for the covers.
pub proof fn lemma_assembled_height(
    generated: GeneratedSvg,
    rows: int,
    columns: int,
    t: int,
    dimensions: ContainerDimensions,
    primary_color: Seq<char>,
    secondary_color: Seq<char>,
)
    requires
        dimensions.scales_by(MICROMETRES_PER_MILLIMETRE as int),
        is_rack(generated, rows, columns, t, dimensions, primary_color, secondary_color),
    ensures
        generated.assembled_dimensions.height == (dimensions.height * rows) * 1000 + 2 * t,
{
    assert((dimensions.height * 1000) * rows == (dimensions.height * rows) * 1000)
        by (nonlinear_arith);
}

/// The assembled depth is the depth of the container, whatever the grid and
/// the material.
pub proof fn lemma_assembled_depth(
    generated: GeneratedSvg,
    rows: int,
    columns: int,
    t: int,
    dimensions: ContainerDimensions,
    primary_color: Seq<char>,
    secondary_color: Seq<char>,
)
    requires
        dimensions.scales_by(MICROMETRES_PER_MILLIMETRE as int),
        is_rack(generated, rows, columns, t, dimensions, primary_color, secondary_color),
    ensures
        generated.assembled_dimensions.depth == dimensions.depth * 1000,
{
}

/// Racks of one container have one assembled depth, however their grids,
/// their material and their colours differ.
pub proof fn lemma_assembled_depth_is_invariant(
    first: GeneratedSvg,
    first_rows: int,
    first_columns: int,
    first_t: int,
    first_colors: (Seq<char>, Seq<char>),
    second: GeneratedSvg,
    second_rows: int,
    second_columns: int,
    second_t: int,
    second_colors: (Seq<char>, Seq<char>),
    dimensions: ContainerDimensions,
)
    requires
        is_rack(
            first,
            first_rows,
            first_columns,
            first_t,
            dimensions,
            first_colors.0,
            first_colors.1,
        ),
        is_rack(
            second,
            second_rows,
            second_columns,
            second_t,
            dimensions,
            second_colors.0,
            second_colors.1,
        ),
    ensures
        first.assembled_dimensions.depth == second.assembled_dimensions.depth,
{
}

/// A rack of positive measures assembles into an envelope of positive
/// measures.
pub proof fn lemma_assembled_dimensions_positive(
    generated: GeneratedSvg,
    rows: int,
    columns: int,
    t: int,
    dimensions: ContainerDimensions,
    primary_color: Seq<char>,
    secondary_color: Seq<char>,
)
    requires
        0 < rows,
        0 < columns,
        0 < t,
        0 < dimensions.width,
        0 < dimensions.depth,
        0 < dimensions.height,
        dimensions.scales_by(MICROMETRES_PER_MILLIMETRE as int),
        is_rack(generated, rows, columns, t, dimensions, primary_color, secondary_color),
    ensures
        generated.assembled_dimensions.width > 0,
        generated.assembled_dimensions.height > 0,
        generated.assembled_dimensions.depth > 0,
{
    let unit = dimensions.width * 1000 + 4000;
    let row = dimensions.height * 1000;
    assert(unit * columns > 0 && (columns + 1) * t > 0 && row * rows > 0) by (nonlinear_arith)
        requires
            unit > 0,
            columns > 0,
            t > 0,
            row > 0,
            rows > 0,
    ;
}

/// The sheet of a rack holds two wing profiles per container, two covers
/// with two slots per column divider, and one side panel per column boundary
/// with four wing slots per row, and every one of these paths is a closed
/// polygon of horizontal and vertical edges.
pub proof fn lemma_rack_paths(
    generated: GeneratedSvg,
    rows: int,
    columns: int,
    t: int,
    dimensions: ContainerDimensions,
    primary_color: Seq<char>,
    secondary_color: Seq<char>,
)
    requires
        0 <= rows,
        1 <= columns,
        is_rack(generated, rows, columns, t, dimensions, primary_color, secondary_color),
    ensures
        generated.document@.paths.len() == 2 * (rows * columns) + 2 * (1 + 2 * (columns - 1)) + (
        columns + 1) * (1 + 4 * rows),
        all_closed_rectilinear(generated.document@.paths),
{
    let joinery = Joinery::in_micrometres();
    let scaled = dimensions.scaled(MICROMETRES_PER_MILLIMETRE as int);
    lemma_sheet_path_count(joinery, scaled, rows, columns, t, primary_color, secondary_color);
    lemma_sheet_closed_rectilinear(
        joinery,
        scaled,
        rows,
        columns,
        t,
        primary_color,
        secondary_color,
    );
}

/// For a container deeper than 120 millimetres, with a positive height and
/// side wing width, a positive material thickness and at least one row and
/// one column, no path of the sheet crosses or touches itself.
pub proof fn lemma_rack_paths_simple(
    generated: GeneratedSvg,
    rows: int,
    columns: int,
    t: int,
    dimensions: ContainerDimensions,
    primary_color: Seq<char>,
    secondary_color: Seq<char>,
)
    requires
        0 < rows,
        0 < columns,
        0 < t,
        0 < dimensions.height,
        0 < dimensions.side_wing_width,
        120 < dimensions.depth,
        dimensions.scales_by(MICROMETRES_PER_MILLIMETRE as int),
        is_rack(generated, rows, columns, t, dimensions, primary_color, secondary_color),
    ensures
        all_simple(generated.document@.paths),
{
    let joinery = Joinery::in_micrometres();
    let scaled = dimensions.scaled(MICROMETRES_PER_MILLIMETRE as int);
    lemma_sheet_simple(joinery, scaled, rows, columns, t, primary_color, secondary_color);
}

} // verus!
