//! The layout of one cutting sheet: the wing pairs, the covers and the side
//! panels side by side, each group in a band of its own, and the envelope of
//! the rack they assemble into.

use vstd::prelude::*;
use vstd::arithmetic::overflow::CheckedUsize;
use crate::arith::{lemma_longer_unit, lemma_multiples_grow, lemma_split_unit};
use crate::container::ContainerDimensions;
use crate::cover::{
    cover_length,
    generate_top_and_bottom_pieces,
    lemma_cover_len,
    lemma_top_and_bottom_closed_rectilinear,
    lemma_top_and_bottom_frame,
    lemma_top_and_bottom_simple,
    top_and_bottom,
    top_width,
};
use crate::geometry::{
    Document,
    DocumentView,
    Frame,
    PathView,
    all_closed_rectilinear,
    all_simple,
    lemma_all_closed_rectilinear_concat,
    lemma_all_simple_concat,
};
use crate::joinery::Joinery;
use crate::side_panel::{
    generate_side_panels,
    lemma_side_panels_closed_rectilinear,
    lemma_side_panels_frame,
    lemma_side_panels_len,
    lemma_side_panels_simple,
    side_panels,
    wing_slot_x,
};
use crate::wing::{
    generate_side_wing_band,
    height_of_two_side_wings,
    lemma_wing_band_closed_rectilinear,
    lemma_wing_band_frame,
    lemma_wing_band_len,
    lemma_wing_band_simple,
    pair_height,
    wing_band,
    wing_pitch,
    wings_have_room,
};

verus! {

/// The outer size of the assembled rack, in the unit the sheet was laid out
/// in.
#[derive(Clone, Copy, Debug, PartialEq, Eq, Structural)]
pub struct AssembledDimensions {
    pub width: usize,
    pub height: usize,
    pub depth: usize,
}

/// Width of one column on the covers: the container, its play, and the
/// divider beside it.
pub open spec fn column_width(joinery: Joinery, dimensions: ContainerDimensions, t: int) -> int {
    dimensions.width + joinery.clearance_for_container_width + t
}

/// Width of the assembled rack: every container with its play, and one
/// material thickness for each of the `columns + 1` side panels.
pub open spec fn assembled_width(
    joinery: Joinery,
    dimensions: ContainerDimensions,
    columns: int,
    t: int,
) -> int {
    (dimensions.width + joinery.clearance_for_container_width) * columns + (columns + 1) * t
}

/// Height of the assembled rack: every row, and the two covers.
pub open spec fn assembled_height(dimensions: ContainerDimensions, rows: int, t: int) -> int {
    dimensions.height * rows + 2 * t
}

/// Depth of the assembled rack: that of the container.
pub open spec fn assembled_depth(dimensions: ContainerDimensions) -> int {
    dimensions.depth as int
}

/// Abscissa at which the band of the covers starts: past the wings, which
/// are as long as the container is deep, and one clearance.
pub open spec fn covers_x(joinery: Joinery, dimensions: ContainerDimensions) -> int {
    dimensions.depth + joinery.clearance_between_paths
}

/// Abscissa at which the band of the side panels starts: past the covers and
/// one clearance.
pub open spec fn side_panels_x(
    joinery: Joinery,
    dimensions: ContainerDimensions,
    columns: int,
    t: int,
) -> int {
    covers_x(joinery, dimensions) + cover_length(column_width(joinery, dimensions, t), columns, t)
        + joinery.clearance_between_paths
}

/// Width of the sheet: the three bands, each followed by one clearance.
pub open spec fn canvas_width(
    joinery: Joinery,
    dimensions: ContainerDimensions,
    rows: int,
    columns: int,
    t: int,
) -> int {
    dimensions.depth + 3 * joinery.clearance_between_paths + cover_length(
        column_width(joinery, dimensions, t),
        columns,
        t,
    ) + dimensions.height * rows + 2 * t
}

/// The largest of three lengths.
pub open spec fn largest(a: int, b: int, c: int) -> int {
    if a >= b && a >= c {
        a
    } else if b >= c {
        b
    } else {
        c
    }
}

/// Height of the sheet: that of the tallest band. The wing band counts one
/// pair height per box position, the cover band two depths and a clearance,
/// the side panel band one depth and one clearance per panel.
pub open spec fn canvas_height(
    joinery: Joinery,
    dimensions: ContainerDimensions,
    rows: int,
    columns: int,
    t: int,
) -> int {
    largest(
        (rows * columns) * pair_height(joinery, dimensions.side_wing_width as int, t),
        2 * dimensions.depth + joinery.clearance_between_paths,
        (columns + 1) * (dimensions.depth + joinery.clearance_between_paths),
    )
}

/// Every path of the sheet in drawing order: the wing pairs of all
/// `rows * columns` box positions, the two covers, and the `columns + 1` side
/// panels. Outlines are stroked in the secondary colour, slots in the primary
/// one.
pub open spec fn sheet_paths(
    joinery: Joinery,
    dimensions: ContainerDimensions,
    rows: int,
    columns: int,
    t: int,
    primary_color: Seq<char>,
    secondary_color: Seq<char>,
) -> Seq<PathView> {
    wing_band(joinery, dimensions, t, secondary_color, (rows * columns) as nat) + top_and_bottom(
        joinery,
        dimensions.depth as int,
        covers_x(joinery, dimensions),
        columns,
        column_width(joinery, dimensions, t),
        t,
        primary_color,
        secondary_color,
    ) + side_panels(
        joinery,
        dimensions,
        side_panels_x(joinery, dimensions, columns, t),
        rows,
        t,
        primary_color,
        secondary_color,
        (columns + 1) as nat,
    )
}

/// The whole sheet.
pub open spec fn sheet(
    joinery: Joinery,
    dimensions: ContainerDimensions,
    rows: int,
    columns: int,
    t: int,
    primary_color: Seq<char>,
    secondary_color: Seq<char>,
) -> DocumentView {
    DocumentView {
        width: canvas_width(joinery, dimensions, rows, columns, t),
        height: canvas_height(joinery, dimensions, rows, columns, t),
        paths: sheet_paths(joinery, dimensions, rows, columns, t, primary_color, secondary_color),
    }
}

/// The sheet can be laid out in machine integers: there is at least one
/// column, the depth has room for the joints, and neither the canvas nor any
/// coordinate on it exceeds `usize::MAX`.
pub open spec fn sheet_fits(
    joinery: Joinery,
    dimensions: ContainerDimensions,
    rows: int,
    columns: int,
    t: int,
) -> bool {
    let boxes = rows * columns;
    let pitch = wing_pitch(joinery, dimensions, t);
    &&& 1 <= columns < usize::MAX
    &&& boxes <= usize::MAX
    &&& joinery.fits_depth(dimensions.depth as int, rows)
    &&& pitch <= usize::MAX
    &&& 1 <= boxes ==> pitch * (boxes - 1) + pair_height(
        joinery,
        dimensions.side_wing_width as int,
        t,
    ) <= usize::MAX
    &&& canvas_width(joinery, dimensions, rows, columns, t) <= usize::MAX
    &&& 1 <= rows ==> wing_slot_x(
        dimensions,
        side_panels_x(joinery, dimensions, columns, t),
        t,
        rows - 1,
    ) + t <= usize::MAX
    &&& (columns + 1) * (dimensions.depth + joinery.clearance_between_paths) <= usize::MAX
}

/// What `assemble` hands back.
#[derive(Clone, Debug, PartialEq, Eq)]
pub struct GeneratedSvg {
    pub document: Document,
    pub assembled_dimensions: AssembledDimensions,
}

/// `generated` is the sheet and the envelope that these inputs determine.
pub open spec fn is_assembly(
    generated: GeneratedSvg,
    joinery: Joinery,
    dimensions: ContainerDimensions,
    rows: int,
    columns: int,
    t: int,
    primary_color: Seq<char>,
    secondary_color: Seq<char>,
) -> bool {
    &&& generated.document@ == sheet(
        joinery,
        dimensions,
        rows,
        columns,
        t,
        primary_color,
        secondary_color,
    )
    &&& generated.assembled_dimensions.width == assembled_width(joinery, dimensions, columns, t)
    &&& generated.assembled_dimensions.height == assembled_height(dimensions, rows, t)
    &&& generated.assembled_dimensions.depth == assembled_depth(dimensions)
}

/// The envelope of the assembled rack, from the closed formulas alone.
pub fn assembled_dimensions(
    rows: usize,
    columns: usize,
    material_thickness: usize,
    dimensions: &ContainerDimensions,
    joinery: &Joinery,
) -> (envelope: AssembledDimensions)
    requires
        1 <= columns,
        assembled_width(*joinery, *dimensions, columns as int, material_thickness as int)
            <= usize::MAX,
        assembled_height(*dimensions, rows as int, material_thickness as int) <= usize::MAX,
    ensures
        envelope.width == assembled_width(
            *joinery,
            *dimensions,
            columns as int,
            material_thickness as int,
        ),
        envelope.height == assembled_height(*dimensions, rows as int, material_thickness as int),
        envelope.depth == assembled_depth(*dimensions),
{
    proof {
        lemma_multiples_grow(
            dimensions.width + joinery.clearance_for_container_width,
            0,
            columns as int,
        );
        lemma_multiples_grow(
            dimensions.width + joinery.clearance_for_container_width,
            1,
            columns as int,
        );
        lemma_multiples_grow(material_thickness as int, 0, columns as int);
        lemma_multiples_grow(material_thickness as int, columns as int, columns + 1);
        lemma_multiples_grow(material_thickness as int, columns + 1, columns + 1);
        lemma_multiples_grow(dimensions.height as int, 0, rows as int);
    }
    let column_width = dimensions.width + joinery.clearance_for_container_width;
    let assembled_width = (column_width * columns) + (columns * material_thickness
        + material_thickness);
    let assembled_height = (dimensions.height * rows) + material_thickness * 2;
    let assembled_depth = dimensions.depth;
    AssembledDimensions { width: assembled_width, height: assembled_height, depth: assembled_depth }
}

/// Decides whether the sheet can be laid out in machine integers.
pub fn can_assemble(
    rows: usize,
    columns: usize,
    material_thickness: usize,
    dimensions: &ContainerDimensions,
    joinery: &Joinery,
) -> (fits: bool)
    ensures
        fits == sheet_fits(
            *joinery,
            *dimensions,
            rows as int,
            columns as int,
            material_thickness as int,
        ),
{
    if columns < 1 || columns == usize::MAX {
        return false;
    }
    let boxes = CheckedUsize::new(rows).mul_value(columns);
    if boxes.is_overflowed() {
        return false;
    }
    let boxes = boxes.unwrap();
    let clearance = joinery.clearance_between_paths;

    let slot_group = CheckedUsize::new(joinery.side_wing_slot_from_front).add_value(
        joinery.side_wing_slot_width,
    ).add_value(joinery.side_wing_slot_spacing).add_value(joinery.side_wing_slot_width);
    let tap_reach = CheckedUsize::new(joinery.side_tap_from_front).add_value(
        joinery.side_tap_width,
    );
    if tap_reach.is_overflowed() || tap_reach.unwrap() > dimensions.depth {
        return false;
    }
    if rows >= 1 && (slot_group.is_overflowed() || slot_group.unwrap() > dimensions.depth) {
        return false;
    }
    let pair = CheckedUsize::new(dimensions.side_wing_width).mul_value(2).add_value(
        clearance,
    ).add_value(material_thickness);
    let pitch = pair.add_value(clearance);
    if pitch.is_overflowed() {
        return false;
    }
    if boxes >= 1 {
        let last_pair = pitch.mul_value(boxes - 1).add_checked(&pair);
        if last_pair.is_overflowed() {
            return false;
        }
    }
    let wide = CheckedUsize::new(dimensions.width).add_value(
        joinery.clearance_for_container_width,
    ).add_value(material_thickness);
    let cover = CheckedUsize::new(material_thickness).add_checked(
        &wide.mul_value(columns),
    ).add_value(material_thickness);
    let all_rows = CheckedUsize::new(dimensions.height).mul_value(rows);
    let side_panels_start = CheckedUsize::new(dimensions.depth).add_value(clearance).add_checked(
        &cover,
    ).add_value(clearance);
    let canvas = side_panels_start.add_value(clearance).add_checked(&all_rows).add_value(
        material_thickness,
    ).add_value(material_thickness);
    if canvas.is_overflowed() {
        return false;
    }
    if rows >= 1 {
        let last_slot = side_panels_start.add_value(material_thickness).add_value(
            dimensions.side_wing_from_box_top,
        ).add_checked(&CheckedUsize::new(dimensions.height).mul_value(rows - 1)).add_value(
            material_thickness,
        );
        if last_slot.is_overflowed() {
            return false;
        }
    }
    let stride = CheckedUsize::new(dimensions.depth).add_value(clearance);
    let side_panel_band = CheckedUsize::new(columns + 1).mul_checked(&stride);
    !side_panel_band.is_overflowed()
}

/// Lays out the whole sheet for a rack of `rows` by `columns` containers and
/// computes the envelope of the assembled rack. Every length, the joinery
/// included, is in one unit.
pub fn assemble(
    rows: usize,
    columns: usize,
    material_thickness: usize,
    dimensions: &ContainerDimensions,
    primary_color: &str,
    secondary_color: &str,
    joinery: &Joinery,
) -> (generated: GeneratedSvg)
    requires
        sheet_fits(
            *joinery,
            *dimensions,
            rows as int,
            columns as int,
            material_thickness as int,
        ),
    ensures
        is_assembly(
            generated,
            *joinery,
            *dimensions,
            rows as int,
            columns as int,
            material_thickness as int,
            primary_color@,
            secondary_color@,
        ),
{
    let ghost t = material_thickness as int;
    let ghost wide = column_width(*joinery, *dimensions, t);
    let ghost pitch = wing_pitch(*joinery, *dimensions, t);
    let ghost pair = pair_height(*joinery, dimensions.side_wing_width as int, t);
    let ghost stride = dimensions.depth + joinery.clearance_between_paths;
    proof {
        // Every part of the canvas width fits, since the whole does.
        lemma_multiples_grow(wide, 1, columns as int);
        lemma_multiples_grow(dimensions.height as int, 0, rows as int);
        // The side panel band is at least as high as the cover band.
        lemma_multiples_grow(stride, 2, columns + 1);
        lemma_multiples_grow(stride, columns as int, columns + 1);
        lemma_multiples_grow(stride, columns + 1, columns + 1);
        // The envelope is no wider than a cover is long.
        lemma_split_unit(
            dimensions.width + joinery.clearance_for_container_width,
            t,
            columns as int,
        );
        lemma_multiples_grow(t, columns as int, columns + 1);
        lemma_multiples_grow(t, columns + 1, columns + 1);
        lemma_multiples_grow(
            dimensions.width + joinery.clearance_for_container_width,
            0,
            columns as int,
        );
        assert(rows == 0 ==> rows * columns == 0) by (nonlinear_arith);
        // One pair height per box is no more than the last pair reaches down.
        if 1 <= rows * columns {
            lemma_longer_unit(pair, pitch, rows * columns - 1);
            lemma_multiples_grow(pair, rows * columns - 1, rows * columns);
            lemma_multiples_grow(pair, rows * columns, rows * columns);
            lemma_multiples_grow(pitch, rows * columns - 1, rows * columns - 1);
        }
    }

    let column_width = dimensions.width + joinery.clearance_for_container_width;
    let amount_of_boxes: usize = rows * columns;
    let height_of_two_side_wings = height_of_two_side_wings(
        dimensions.side_wing_width,
        material_thickness,
        joinery,
    );
    let cover_width = top_width(column_width + material_thickness, columns, material_thickness);

    let total_width = (dimensions.depth + joinery.clearance_between_paths * 3) + cover_width
        + dimensions.height * rows + 2 * material_thickness;
    let wing_band_height = amount_of_boxes * height_of_two_side_wings;
    let cover_band_height = 2 * dimensions.depth + joinery.clearance_between_paths;
    let side_panel_band_height = (columns + 1) * (dimensions.depth
        + joinery.clearance_between_paths);
    let total_height = if wing_band_height >= cover_band_height && wing_band_height
        >= side_panel_band_height {
        wing_band_height
    } else if cover_band_height >= side_panel_band_height {
        cover_band_height
    } else {
        side_panel_band_height
    };

    let mut document = Document::new(total_width, total_height);

    generate_side_wing_band(
        &mut document,
        dimensions,
        amount_of_boxes,
        material_thickness,
        secondary_color,
        joinery,
    );

    generate_top_and_bottom_pieces(
        &mut document,
        dimensions,
        dimensions.depth + joinery.clearance_between_paths,
        columns,
        column_width + material_thickness,
        material_thickness,
        primary_color,
        secondary_color,
        joinery,
    );

    generate_side_panels(
        &mut document,
        dimensions.depth + joinery.clearance_between_paths + cover_width
            + joinery.clearance_between_paths,
        dimensions,
        rows,
        columns,
        material_thickness,
        primary_color,
        secondary_color,
        joinery,
    );
    assert(document@.paths =~= sheet_paths(
        *joinery,
        *dimensions,
        rows as int,
        columns as int,
        t,
        primary_color@,
        secondary_color@,
    ));

    let assembled_dimensions = assembled_dimensions(
        rows,
        columns,
        material_thickness,
        dimensions,
        joinery,
    );

    GeneratedSvg { document, assembled_dimensions }
}

/// The sheet holds two wing profiles per box position, two covers with two
/// slots per column divider each, and `columns + 1` side panels with four
/// wing slots per row each.
pub proof fn lemma_sheet_path_count(
    joinery: Joinery,
    dimensions: ContainerDimensions,
    rows: int,
    columns: int,
    t: int,
    primary_color: Seq<char>,
    secondary_color: Seq<char>,
)
    requires
        0 <= rows,
        1 <= columns,
    ensures
        sheet_paths(
            joinery,
            dimensions,
            rows,
            columns,
            t,
            primary_color,
            secondary_color,
        ).len() == 2 * (rows * columns) + 2 * (1 + 2 * (columns - 1)) + (columns + 1) * (1 + 4
            * rows),
{
    lemma_multiples_grow(rows, 0, columns);
    lemma_wing_band_len(joinery, dimensions, t, secondary_color, (rows * columns) as nat);
    lemma_cover_len(
        joinery,
        dimensions.depth as int,
        covers_x(joinery, dimensions),
        0,
        columns,
        column_width(joinery, dimensions, t),
        t,
        primary_color,
        secondary_color,
    );
    lemma_cover_len(
        joinery,
        dimensions.depth as int,
        covers_x(joinery, dimensions),
        dimensions.depth + joinery.clearance_between_paths,
        columns,
        column_width(joinery, dimensions, t),
        t,
        primary_color,
        secondary_color,
    );
    lemma_side_panels_len(
        joinery,
        dimensions,
        side_panels_x(joinery, dimensions, columns, t),
        rows,
        t,
        primary_color,
        secondary_color,
        (columns + 1) as nat,
    );
}

/// Every path of the sheet is a closed polygon of horizontal and vertical
/// edges.
pub proof fn lemma_sheet_closed_rectilinear(
    joinery: Joinery,
    dimensions: ContainerDimensions,
    rows: int,
    columns: int,
    t: int,
    primary_color: Seq<char>,
    secondary_color: Seq<char>,
)
    ensures
        all_closed_rectilinear(
            sheet_paths(joinery, dimensions, rows, columns, t, primary_color, secondary_color),
        ),
{
    let wings = wing_band(joinery, dimensions, t, secondary_color, (rows * columns) as nat);
    let covers = top_and_bottom(
        joinery,
        dimensions.depth as int,
        covers_x(joinery, dimensions),
        columns,
        column_width(joinery, dimensions, t),
        t,
        primary_color,
        secondary_color,
    );
    let panels = side_panels(
        joinery,
        dimensions,
        side_panels_x(joinery, dimensions, columns, t),
        rows,
        t,
        primary_color,
        secondary_color,
        (columns + 1) as nat,
    );
    lemma_wing_band_closed_rectilinear(
        joinery,
        dimensions,
        t,
        secondary_color,
        (rows * columns) as nat,
    );
    lemma_top_and_bottom_closed_rectilinear(
        joinery,
        dimensions.depth as int,
        covers_x(joinery, dimensions),
        columns,
        column_width(joinery, dimensions, t),
        t,
        primary_color,
        secondary_color,
    );
    lemma_side_panels_closed_rectilinear(
        joinery,
        dimensions,
        side_panels_x(joinery, dimensions, columns, t),
        rows,
        t,
        primary_color,
        secondary_color,
        (columns + 1) as nat,
    );
    lemma_all_closed_rectilinear_concat(wings, covers);
    lemma_all_closed_rectilinear_concat(wings + covers, panels);
}

/// The rectangle of the wing band: from the corner of the sheet, as long as
/// the container is deep, one pitch high per box position.
pub open spec fn wing_band_frame(
    joinery: Joinery,
    dimensions: ContainerDimensions,
    rows: int,
    columns: int,
    t: int,
) -> Frame {
    Frame {
        left: 0,
        top: 0,
        right: dimensions.depth as int,
        bottom: wing_pitch(joinery, dimensions, t) * (rows * columns),
    }
}

/// The rectangle of the cover band: one clearance right of the wing band.
pub open spec fn cover_band_frame(
    joinery: Joinery,
    dimensions: ContainerDimensions,
    columns: int,
    t: int,
) -> Frame {
    Frame {
        left: covers_x(joinery, dimensions),
        top: 0,
        right: covers_x(joinery, dimensions) + cover_length(
            column_width(joinery, dimensions, t),
            columns,
            t,
        ),
        bottom: 2 * dimensions.depth + joinery.clearance_between_paths,
    }
}

/// The rectangle of the side panel band: one clearance right of the cover
/// band, ending one clearance short of the right edge of the canvas.
pub open spec fn side_panel_band_frame(
    joinery: Joinery,
    dimensions: ContainerDimensions,
    rows: int,
    columns: int,
    t: int,
) -> Frame {
    Frame {
        left: side_panels_x(joinery, dimensions, columns, t),
        top: 0,
        right: canvas_width(joinery, dimensions, rows, columns, t)
            - joinery.clearance_between_paths,
        bottom: (dimensions.depth + joinery.clearance_between_paths) * (columns + 1),
    }
}

/// The three groups of panels lie side by side, each in a band of its own:
/// the wings, one clearance, the covers, one clearance, the side panels, and
/// one clearance up to the right edge of the canvas. The canvas is as high as
/// the cover band and the side panel band need. For the side panels this
/// takes that the side wing sits within the height of its container.
pub proof fn lemma_bands_side_by_side(
    joinery: Joinery,
    dimensions: ContainerDimensions,
    rows: int,
    columns: int,
    t: int,
    primary_color: Seq<char>,
    secondary_color: Seq<char>,
)
    requires
        0 <= rows,
        1 <= columns,
        0 <= t,
        joinery.fits_depth(dimensions.depth as int, 1),
        dimensions.side_wing_from_box_top <= dimensions.height,
    ensures
        ({
            let wings = wing_band_frame(joinery, dimensions, rows, columns, t);
            let covers = cover_band_frame(joinery, dimensions, columns, t);
            let panels = side_panel_band_frame(joinery, dimensions, rows, columns, t);
            &&& wings.holds_all(
                wing_band(joinery, dimensions, t, secondary_color, (rows * columns) as nat),
            )
            &&& covers.holds_all(
                top_and_bottom(
                    joinery,
                    dimensions.depth as int,
                    covers_x(joinery, dimensions),
                    columns,
                    column_width(joinery, dimensions, t),
                    t,
                    primary_color,
                    secondary_color,
                ),
            )
            &&& panels.holds_all(
                side_panels(
                    joinery,
                    dimensions,
                    side_panels_x(joinery, dimensions, columns, t),
                    rows,
                    t,
                    primary_color,
                    secondary_color,
                    (columns + 1) as nat,
                ),
            )
            &&& covers.left == wings.right + joinery.clearance_between_paths
            &&& panels.left == covers.right + joinery.clearance_between_paths
            &&& panels.left <= panels.right
            &&& covers.bottom <= canvas_height(joinery, dimensions, rows, columns, t)
            &&& panels.bottom <= canvas_height(joinery, dimensions, rows, columns, t)
        }),
{
    let stride = dimensions.depth + joinery.clearance_between_paths;
    lemma_multiples_grow(rows, 0, columns);
    lemma_multiples_grow(dimensions.height as int, 0, rows);
    lemma_multiples_grow(stride, columns + 1, columns + 1);
    lemma_wing_band_frame(joinery, dimensions, t, secondary_color, (rows * columns) as nat);
    lemma_top_and_bottom_frame(
        joinery,
        dimensions.depth as int,
        covers_x(joinery, dimensions),
        columns,
        column_width(joinery, dimensions, t),
        t,
        primary_color,
        secondary_color,
    );
    lemma_side_panels_frame(
        joinery,
        dimensions,
        side_panels_x(joinery, dimensions, columns, t),
        rows,
        t,
        primary_color,
        secondary_color,
        (columns + 1) as nat,
    );
}

/// The measures leave room for panels that do not cross themselves: there is
/// at least one row and one column, every length that a panel is made of is
/// positive, and on the depth of the container the slots of each wing
/// profile and the two side taps lie apart.
pub open spec fn panels_have_room(
    joinery: Joinery,
    dimensions: ContainerDimensions,
    rows: int,
    columns: int,
    t: int,
) -> bool {
    &&& 0 < rows
    &&& 0 < columns
    &&& 0 < dimensions.height
    &&& wings_have_room(joinery, t, dimensions.depth as int, dimensions.side_wing_width as int)
    &&& joinery.side_taps_have_room(dimensions.depth as int)
}

/// With that room, no path of the sheet crosses or touches itself.
pub proof fn lemma_sheet_simple(
    joinery: Joinery,
    dimensions: ContainerDimensions,
    rows: int,
    columns: int,
    t: int,
    primary_color: Seq<char>,
    secondary_color: Seq<char>,
)
    requires
        panels_have_room(joinery, dimensions, rows, columns, t),
    ensures
        all_simple(
            sheet_paths(joinery, dimensions, rows, columns, t, primary_color, secondary_color),
        ),
{
    let wings = wing_band(joinery, dimensions, t, secondary_color, (rows * columns) as nat);
    let covers = top_and_bottom(
        joinery,
        dimensions.depth as int,
        covers_x(joinery, dimensions),
        columns,
        column_width(joinery, dimensions, t),
        t,
        primary_color,
        secondary_color,
    );
    let panels = side_panels(
        joinery,
        dimensions,
        side_panels_x(joinery, dimensions, columns, t),
        rows,
        t,
        primary_color,
        secondary_color,
        (columns + 1) as nat,
    );
    lemma_wing_band_simple(joinery, dimensions, t, secondary_color, (rows * columns) as nat);
    lemma_top_and_bottom_simple(
        joinery,
        dimensions.depth as int,
        covers_x(joinery, dimensions),
        columns,
        column_width(joinery, dimensions, t),
        t,
        primary_color,
        secondary_color,
    );
    lemma_side_panels_simple(
        joinery,
        dimensions,
        side_panels_x(joinery, dimensions, columns, t),
        rows,
        t,
        primary_color,
        secondary_color,
        (columns + 1) as nat,
    );
    lemma_all_simple_concat(wings, covers);
    lemma_all_simple_concat(wings + covers, panels);
}

/// Whatever the unit, a rack of positive measures has an envelope of
/// positive measures.
pub proof fn lemma_envelope_positive(
    joinery: Joinery,
    dimensions: ContainerDimensions,
    rows: int,
    columns: int,
    t: int,
)
    requires
        0 < rows,
        0 < columns,
        0 < t,
        0 < dimensions.width,
        0 < dimensions.depth,
        0 < dimensions.height,
    ensures
        assembled_width(joinery, dimensions, columns, t) > 0,
        assembled_height(dimensions, rows, t) > 0,
        assembled_depth(dimensions) > 0,
{
    let unit = dimensions.width + joinery.clearance_for_container_width;
    let row = dimensions.height as int;
    assert(unit * columns > 0 && (columns + 1) * t > 0 && row * rows > 0) by (nonlinear_arith)
        requires
            unit > 0,
            columns > 0,
            t > 0,
            row > 0,
            rows > 0,
    ;
}

/// Two assemblies from the same inputs are the same sheet and the same
/// envelope.
pub proof fn lemma_assembly_is_deterministic(
    first: GeneratedSvg,
    second: GeneratedSvg,
    joinery: Joinery,
    dimensions: ContainerDimensions,
    rows: int,
    columns: int,
    t: int,
    primary_color: Seq<char>,
    secondary_color: Seq<char>,
)
    requires
        is_assembly(
            first,
            joinery,
            dimensions,
            rows,
            columns,
            t,
            primary_color,
            secondary_color,
        ),
        is_assembly(
            second,
            joinery,
            dimensions,
            rows,
            columns,
            t,
            primary_color,
            secondary_color,
        ),
    ensures
        first.assembled_dimensions == second.assembled_dimensions,
        first.document@ == second.document@,
{
}

} // verus!
