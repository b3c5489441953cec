//! The side panels: one outline per column boundary, with taps at its ends
//! that enter the covers, and four slots per row that receive the side wings.

use vstd::prelude::*;
use crate::arith::lemma_multiples_grow;
use crate::container::ContainerDimensions;
use crate::geometry::{
    Document,
    Frame,
    OutlineBuilder,
    Path,
    PathView,
    Point,
    all_closed_rectilinear,
    all_simple,
    closed_rectilinear,
    simple,
    lemma_all_closed_rectilinear_concat,
    lemma_all_simple_concat,
    lemma_frames_join,
    lemma_slot_closed_rectilinear,
    lemma_slot_frame,
    lemma_slot_simple,
    slot,
    slot_outline,
};
use crate::joinery::{
    Joinery,
    fourth_side_wing_tap_position_from_front,
    second_side_wing_tap_position_from_front,
    third_side_wing_tap_position_from_front,
};

verus! {

/// The side panel outline with its origin at `(x, y)`. The panel body is
/// `inner` long between the two covers and `depth` deep; at each end two taps
/// of depth `t` stand out over the side tap positions.
pub open spec fn side_panel_outline(
    joinery: Joinery,
    x: int,
    y: int,
    depth: int,
    inner: int,
    t: int,
) -> Seq<(int, int)> {
    let front_start = y + joinery.side_tap_start(depth, 0);
    let front_end = y + joinery.side_tap_end(depth, 0);
    let back_start = y + joinery.side_tap_start(depth, 1);
    let back_end = y + joinery.side_tap_end(depth, 1);
    let near = x + t;
    let far = x + inner + t;
    let tip = x + inner + 2 * t;
    seq![
        (near, y),
        (near, front_start),
        (x, front_start),
        (x, front_end),
        (near, front_end),
        (near, back_start),
        (x, back_start),
        (x, back_end),
        (near, back_end),
        (near, y + depth),
        (far, y + depth),
        (far, back_end),
        (tip, back_end),
        (tip, back_start),
        (far, back_start),
        (far, front_end),
        (tip, front_end),
        (tip, front_start),
        (far, front_start),
        (far, y),
    ]
}

/// The four slots that receive the side wings of one row, on a panel whose
/// origin is at height `y`; `x` is the near edge of the slots. Slot `k` lies
/// over slot zone `k`.
pub open spec fn wing_slots(joinery: Joinery, depth: int, x: int, y: int, t: int, color: Seq<char>) -> Seq<
    PathView,
> {
    Seq::new(
        4,
        |zone: int|
            slot(
                x,
                y + joinery.slot_zone_start(depth, zone),
                t,
                joinery.side_wing_slot_width as int,
                color,
            ),
    )
}

/// Near edge of the wing slots of row `row` on a panel whose origin is at
/// abscissa `x`: past the cover tap, then down to the side wing of that row.
pub open spec fn wing_slot_x(dimensions: ContainerDimensions, x: int, t: int, row: int) -> int {
    x + t + dimensions.side_wing_from_box_top + dimensions.height * row
}

/// The wing slots of the first `rows` rows of one panel.
pub open spec fn row_slots(
    joinery: Joinery,
    dimensions: ContainerDimensions,
    x: int,
    y: int,
    t: int,
    color: Seq<char>,
    rows: nat,
) -> Seq<PathView>
    decreases rows,
{
    if rows == 0 {
        Seq::empty()
    } else {
        row_slots(joinery, dimensions, x, y, t, color, (rows - 1) as nat) + wing_slots(
            joinery,
            dimensions.depth as int,
            wing_slot_x(dimensions, x, t, rows - 1),
            y,
            t,
            color,
        )
    }
}

/// One side panel with its origin at `(x, y)`: the outline in the secondary
/// colour, then the wing slots of every row in the primary colour.
pub open spec fn side_panel(
    joinery: Joinery,
    dimensions: ContainerDimensions,
    x: int,
    y: int,
    rows: int,
    t: int,
    primary_color: Seq<char>,
    secondary_color: Seq<char>,
) -> Seq<PathView> {
    seq![
        PathView {
            vertices: side_panel_outline(
                joinery,
                x,
                y,
                dimensions.depth as int,
                dimensions.height * rows,
                t,
            ),
            stroke: secondary_color,
        },
    ] + row_slots(joinery, dimensions, x, y, t, primary_color, rows as nat)
}

/// Height at which side panel `index` starts: the panels are stacked one
/// depth and one clearance apart.
pub open spec fn side_panel_y(joinery: Joinery, dimensions: ContainerDimensions, index: int) -> int {
    (dimensions.depth + joinery.clearance_between_paths) * index
}

/// The first `count` side panels, all starting at abscissa `x`.
pub open spec fn side_panels(
    joinery: Joinery,
    dimensions: ContainerDimensions,
    x: int,
    rows: int,
    t: int,
    primary_color: Seq<char>,
    secondary_color: Seq<char>,
    count: nat,
) -> Seq<PathView>
    decreases count,
{
    if count == 0 {
        Seq::empty()
    } else {
        side_panels(
            joinery,
            dimensions,
            x,
            rows,
            t,
            primary_color,
            secondary_color,
            (count - 1) as nat,
        ) + side_panel(
            joinery,
            dimensions,
            x,
            side_panel_y(joinery, dimensions, count - 1),
            rows,
            t,
            primary_color,
            secondary_color,
        )
    }
}

/// A side panel with its origin at `(x, y)` can be drawn in machine integers:
/// its outline and, if there is a row, the slots of the last one.
pub open spec fn side_panel_fits(
    joinery: Joinery,
    dimensions: ContainerDimensions,
    x: int,
    y: int,
    rows: int,
    t: int,
) -> bool {
    &&& joinery.fits_depth(dimensions.depth as int, rows)
    &&& x + dimensions.height * rows + 2 * t <= usize::MAX
    &&& 1 <= rows ==> wing_slot_x(dimensions, x, t, rows - 1) + t <= usize::MAX
    &&& y + dimensions.depth <= usize::MAX
}

/// The `columns + 1` side panels starting at abscissa `x` can be drawn in
/// machine integers: the panels can be counted, their pitch computed, and the
/// last and lowest of them drawn.
pub open spec fn side_panels_fit(
    joinery: Joinery,
    dimensions: ContainerDimensions,
    x: int,
    rows: int,
    columns: int,
    t: int,
) -> bool {
    &&& columns < usize::MAX
    &&& dimensions.depth + joinery.clearance_between_paths <= usize::MAX
    &&& side_panel_fits(
        joinery,
        dimensions,
        x,
        side_panel_y(joinery, dimensions, columns),
        rows,
        t,
    )
}

/// Draws one wing slot, its near corner at `(x, y)`.
pub fn generate_side_panel_wing_holes(
    x: usize,
    y: usize,
    material_thickness: usize,
    color: &str,
    joinery: &Joinery,
) -> (path: Path)
    requires
        x + material_thickness <= usize::MAX,
        y + joinery.side_wing_slot_width <= usize::MAX,
    ensures
        path@ == slot(
            x as int,
            y as int,
            material_thickness as int,
            joinery.side_wing_slot_width as int,
            color@,
        ),
{
    let path_data = OutlineBuilder::move_to(Point { x, y })
        .vertical_line_to(y + joinery.side_wing_slot_width)
        .horizontal_line_to(x + material_thickness)
        .vertical_line_to(y)
        .close();
    assert(path_data@ =~= slot_outline(
        x as int,
        y as int,
        material_thickness as int,
        joinery.side_wing_slot_width as int,
    ));
    Path::new(path_data, color)
}

/// Draws the outline of one side panel with its origin at
/// `(starting_point_x, starting_point_y)`.
pub fn generate_side_panel_outline_path(
    starting_point_x: usize,
    starting_point_y: usize,
    dimensions: &ContainerDimensions,
    rows: usize,
    material_thickness: usize,
    color: &str,
    joinery: &Joinery,
) -> (path: Path)
    requires
        joinery.side_tap_reach() <= dimensions.depth,
        starting_point_x + dimensions.height * rows + 2 * material_thickness <= usize::MAX,
        starting_point_y + dimensions.depth <= usize::MAX,
    ensures
        path@ == (PathView {
            vertices: side_panel_outline(
                *joinery,
                starting_point_x as int,
                starting_point_y as int,
                dimensions.depth as int,
                dimensions.height * rows,
                material_thickness as int,
            ),
            stroke: color@,
        }),
{
    assert(0 <= dimensions.height * rows) by (nonlinear_arith);
    let panel_inner_height = dimensions.height * rows;
    let tap_reach = joinery.side_tap_from_front + joinery.side_tap_width;
    let side_panel_path_data = OutlineBuilder::move_to(
        Point { x: starting_point_x + material_thickness, y: starting_point_y },
    )
        .vertical_line_to(starting_point_y + joinery.side_tap_from_front)
        .horizontal_line_to(starting_point_x)
        .vertical_line_to(starting_point_y + tap_reach)
        .horizontal_line_to(starting_point_x + material_thickness)
        .vertical_line_to(starting_point_y + (dimensions.depth - tap_reach))
        .horizontal_line_to(starting_point_x)
        .vertical_line_to(starting_point_y + (dimensions.depth - joinery.side_tap_from_front))
        .horizontal_line_to(starting_point_x + material_thickness)
        .vertical_line_to(starting_point_y + dimensions.depth)
        .horizontal_line_to(starting_point_x + panel_inner_height + material_thickness)
        .vertical_line_to(starting_point_y + (dimensions.depth - joinery.side_tap_from_front))
        .horizontal_line_to(starting_point_x + panel_inner_height + 2 * material_thickness)
        .vertical_line_to(starting_point_y + (dimensions.depth - tap_reach))
        .horizontal_line_to(starting_point_x + panel_inner_height + material_thickness)
        .vertical_line_to(starting_point_y + tap_reach)
        .horizontal_line_to(starting_point_x + panel_inner_height + 2 * material_thickness)
        .vertical_line_to(starting_point_y + joinery.side_tap_from_front)
        .horizontal_line_to(starting_point_x + panel_inner_height + material_thickness)
        .vertical_line_to(starting_point_y)
        .close();
    assert(side_panel_path_data@ =~= side_panel_outline(
        *joinery,
        starting_point_x as int,
        starting_point_y as int,
        dimensions.depth as int,
        dimensions.height * rows,
        material_thickness as int,
    ));
    Path::new(side_panel_path_data, color)
}

/// Draws the `columns + 1` side panels, all starting at abscissa
/// `starting_point_x` and stacked one depth and one clearance apart.
pub fn generate_side_panels(
    document: &mut Document,
    starting_point_x: usize,
    dimensions: &ContainerDimensions,
    rows: usize,
    columns: usize,
    material_thickness: usize,
    primary_color: &str,
    secondary_color: &str,
    joinery: &Joinery,
)
    requires
        side_panels_fit(
            *joinery,
            *dimensions,
            starting_point_x as int,
            rows as int,
            columns as int,
            material_thickness as int,
        ),
    ensures
        final(document)@ == old(document)@.with(
            side_panels(
                *joinery,
                *dimensions,
                starting_point_x as int,
                rows as int,
                material_thickness as int,
                primary_color@,
                secondary_color@,
                (columns + 1) as nat,
            ),
        ),
{
    let ghost before = document@;
    let ghost x = starting_point_x as int;
    let ghost t = material_thickness as int;
    let ghost depth = dimensions.depth as int;
    let pitch = dimensions.depth + joinery.clearance_between_paths;
    proof {
        lemma_multiples_grow(pitch as int, 0, columns as int);
        assert(document@.paths =~= before.paths + Seq::<PathView>::empty());
    }
    for i in 0..columns + 1
        invariant
            side_panels_fit(*joinery, *dimensions, x, rows as int, columns as int, t),
            x == starting_point_x,
            t == material_thickness,
            depth == dimensions.depth,
            pitch == dimensions.depth + joinery.clearance_between_paths,
            document@.width == before.width,
            document@.height == before.height,
            document@.paths == before.paths + side_panels(
                *joinery,
                *dimensions,
                x,
                rows as int,
                t,
                primary_color@,
                secondary_color@,
                i as nat,
            ),
    {
        proof {
            lemma_multiples_grow(pitch as int, i as int, columns as int);
        }
        let y = pitch * i;
        let ghost done = side_panels(
            *joinery,
            *dimensions,
            x,
            rows as int,
            t,
            primary_color@,
            secondary_color@,
            i as nat,
        );

        let outline = generate_side_panel_outline_path(
            starting_point_x,
            y,
            dimensions,
            rows,
            material_thickness,
            secondary_color,
            joinery,
        );
        let ghost outline_path = outline@;
        document.append(outline);
        assert(document@.paths =~= before.paths + (done + (seq![outline_path] + Seq::<
            PathView,
        >::empty())));

        for r in 0..rows
            invariant
                side_panel_fits(
                    *joinery,
                    *dimensions,
                    x,
                    side_panel_y(*joinery, *dimensions, columns as int),
                    rows as int,
                    t,
                ),
                x == starting_point_x,
                t == material_thickness,
                depth == dimensions.depth,
                y + depth <= usize::MAX,
                document@.width == before.width,
                document@.height == before.height,
                document@.paths == before.paths + (done + (seq![outline_path] + row_slots(
                    *joinery,
                    *dimensions,
                    x,
                    y as int,
                    t,
                    primary_color@,
                    r as nat,
                ))),
        {
            proof {
                lemma_multiples_grow(dimensions.height as int, r as int, rows - 1);
            }
            let ghost drawn = document@.paths;
            let row_x = material_thickness + (dimensions.side_wing_from_box_top + dimensions.height
                * r);
            let slot_x = starting_point_x + row_x;

            document.append(
                generate_side_panel_wing_holes(
                    slot_x,
                    y + joinery.side_wing_slot_from_front,
                    material_thickness,
                    primary_color,
                    joinery,
                ),
            );
            document.append(
                generate_side_panel_wing_holes(
                    slot_x,
                    y + second_side_wing_tap_position_from_front(joinery),
                    material_thickness,
                    primary_color,
                    joinery,
                ),
            );
            document.append(
                generate_side_panel_wing_holes(
                    slot_x,
                    y + third_side_wing_tap_position_from_front(dimensions.depth, joinery),
                    material_thickness,
                    primary_color,
                    joinery,
                ),
            );
            document.append(
                generate_side_panel_wing_holes(
                    slot_x,
                    y + fourth_side_wing_tap_position_from_front(dimensions.depth, joinery),
                    material_thickness,
                    primary_color,
                    joinery,
                ),
            );
            proof {
                let added = wing_slots(
                    *joinery,
                    depth,
                    wing_slot_x(*dimensions, x, t, r as int),
                    y as int,
                    t,
                    primary_color@,
                );
                assert(document@.paths =~= drawn + added);
                assert(document@.paths =~= before.paths + (done + (seq![outline_path] + row_slots(
                    *joinery,
                    *dimensions,
                    x,
                    y as int,
                    t,
                    primary_color@,
                    (r + 1) as nat,
                ))));
            }
        }
        assert(document@.paths =~= before.paths + side_panels(
            *joinery,
            *dimensions,
            x,
            rows as int,
            t,
            primary_color@,
            secondary_color@,
            (i + 1) as nat,
        ));
    }
}

/// `rows` rows take four wing slots each.
pub proof fn lemma_row_slots_len(
    joinery: Joinery,
    dimensions: ContainerDimensions,
    x: int,
    y: int,
    t: int,
    color: Seq<char>,
    rows: nat,
)
    ensures
        row_slots(joinery, dimensions, x, y, t, color, rows).len() == 4 * rows,
    decreases rows,
{
    if rows > 0 {
        lemma_row_slots_len(joinery, dimensions, x, y, t, color, (rows - 1) as nat);
    }
}

/// `count` side panels are `count` outlines and four wing slots per row on
/// each.
pub proof fn lemma_side_panels_len(
    joinery: Joinery,
    dimensions: ContainerDimensions,
    x: int,
    rows: int,
    t: int,
    primary_color: Seq<char>,
    secondary_color: Seq<char>,
    count: nat,
)
    requires
        0 <= rows,
    ensures
        side_panels(
            joinery,
            dimensions,
            x,
            rows,
            t,
            primary_color,
            secondary_color,
            count,
        ).len() == count * (1 + 4 * rows),
    decreases count,
{
    if count > 0 {
        lemma_side_panels_len(
            joinery,
            dimensions,
            x,
            rows,
            t,
            primary_color,
            secondary_color,
            (count - 1) as nat,
        );
        lemma_row_slots_len(
            joinery,
            dimensions,
            x,
            side_panel_y(joinery, dimensions, count - 1),
            t,
            primary_color,
            rows as nat,
        );
        assert(count * (1 + 4 * rows) == (count - 1) * (1 + 4 * rows) + (1 + 4 * rows))
            by (nonlinear_arith);
    } else {
        assert(count * (1 + 4 * rows) == 0) by (nonlinear_arith)
            requires
                count == 0,
        ;
    }
}

/// A side panel outline is a closed polygon of horizontal and vertical edges.
pub proof fn lemma_side_panel_outline_closed_rectilinear(
    joinery: Joinery,
    x: int,
    y: int,
    depth: int,
    inner: int,
    t: int,
)
    ensures
        closed_rectilinear(side_panel_outline(joinery, x, y, depth, inner, t)),
{
}

/// Every wing slot of a panel is a closed polygon of horizontal and vertical
/// edges.
pub proof fn lemma_row_slots_closed_rectilinear(
    joinery: Joinery,
    dimensions: ContainerDimensions,
    x: int,
    y: int,
    t: int,
    color: Seq<char>,
    rows: nat,
)
    ensures
        all_closed_rectilinear(row_slots(joinery, dimensions, x, y, t, color, rows)),
    decreases rows,
{
    if rows > 0 {
        lemma_row_slots_closed_rectilinear(joinery, dimensions, x, y, t, color, (rows - 1) as nat);
        let depth = dimensions.depth as int;
        let at = wing_slot_x(dimensions, x, t, rows - 1);
        let added = wing_slots(joinery, depth, at, y, t, color);
        assert forall|zone: int| 0 <= zone < added.len() implies closed_rectilinear(
            #[trigger] added[zone].vertices,
        ) by {
            lemma_slot_closed_rectilinear(
                at,
                y + joinery.slot_zone_start(depth, zone),
                t,
                joinery.side_wing_slot_width as int,
            );
        }
        lemma_all_closed_rectilinear_concat(
            row_slots(joinery, dimensions, x, y, t, color, (rows - 1) as nat),
            added,
        );
    }
}

/// Every path of a run of side panels is a closed polygon of horizontal and
/// vertical edges.
pub proof fn lemma_side_panels_closed_rectilinear(
    joinery: Joinery,
    dimensions: ContainerDimensions,
    x: int,
    rows: int,
    t: int,
    primary_color: Seq<char>,
    secondary_color: Seq<char>,
    count: nat,
)
    ensures
        all_closed_rectilinear(
            side_panels(joinery, dimensions, x, rows, t, primary_color, secondary_color, count),
        ),
    decreases count,
{
    if count > 0 {
        lemma_side_panels_closed_rectilinear(
            joinery,
            dimensions,
            x,
            rows,
            t,
            primary_color,
            secondary_color,
            (count - 1) as nat,
        );
        let y = side_panel_y(joinery, dimensions, count - 1);
        let outline = PathView {
            vertices: side_panel_outline(
                joinery,
                x,
                y,
                dimensions.depth as int,
                dimensions.height * rows,
                t,
            ),
            stroke: secondary_color,
        };
        lemma_side_panel_outline_closed_rectilinear(
            joinery,
            x,
            y,
            dimensions.depth as int,
            dimensions.height * rows,
            t,
        );
        lemma_row_slots_closed_rectilinear(
            joinery,
            dimensions,
            x,
            y,
            t,
            primary_color,
            rows as nat,
        );
        lemma_all_closed_rectilinear_concat(
            seq![outline],
            row_slots(joinery, dimensions, x, y, t, primary_color, rows as nat),
        );
        lemma_all_closed_rectilinear_concat(
            side_panels(
                joinery,
                dimensions,
                x,
                rows,
                t,
                primary_color,
                secondary_color,
                (count - 1) as nat,
            ),
            side_panel(joinery, dimensions, x, y, rows, t, primary_color, secondary_color),
        );
    }
}

/// The rectangle a side panel of `rows` rows with its origin at `(x, y)` is
/// drawn in: every row and the two taps long, and as high as the container
/// is deep.
pub open spec fn side_panel_frame(
    dimensions: ContainerDimensions,
    x: int,
    y: int,
    rows: int,
    t: int,
) -> Frame {
    Frame {
        left: x,
        top: y,
        right: x + dimensions.height * rows + 2 * t,
        bottom: y + dimensions.depth,
    }
}

/// The wing slots of the first `done` rows stay on the panel, provided the
/// side wing sits within the height of its container.
pub proof fn lemma_row_slots_frame(
    joinery: Joinery,
    dimensions: ContainerDimensions,
    x: int,
    y: int,
    rows: int,
    t: int,
    color: Seq<char>,
    done: nat,
)
    requires
        0 <= t,
        done <= rows,
        dimensions.side_wing_from_box_top <= dimensions.height,
        joinery.slot_group_length() <= dimensions.depth,
    ensures
        side_panel_frame(dimensions, x, y, rows, t).holds_all(
            row_slots(joinery, dimensions, x, y, t, color, done),
        ),
    decreases done,
{
    let frame = side_panel_frame(dimensions, x, y, rows, t);
    if done > 0 {
        lemma_row_slots_frame(joinery, dimensions, x, y, rows, t, color, (done - 1) as nat);
        lemma_multiples_grow(dimensions.height as int, done - 1, done as int);
        lemma_multiples_grow(dimensions.height as int, done as int, rows);
        let depth = dimensions.depth as int;
        let at = wing_slot_x(dimensions, x, t, done - 1);
        let width = joinery.side_wing_slot_width as int;
        let added = wing_slots(joinery, depth, at, y, t, color);
        assert forall|zone: int| 0 <= zone < added.len() implies frame.holds_outline(
            #[trigger] added[zone].vertices,
        ) by {
            let top = y + joinery.slot_zone_start(depth, zone);
            lemma_slot_frame(at, top, t, width);
            let own = Frame { left: at, top: top, right: at + t, bottom: top + width };
            assert(own.holds_outline(added[zone].vertices));
            assert forall|k: int| 0 <= k < added[zone].vertices.len() implies frame.holds(
                #[trigger] added[zone].vertices[k],
            ) by {
                assert(own.holds(added[zone].vertices[k]));
            }
        }
        lemma_frames_join(
            row_slots(joinery, dimensions, x, y, t, color, (done - 1) as nat),
            frame,
            added,
            frame,
            frame,
        );
    }
}

/// A side panel, outline and slots, stays inside its rectangle.
pub proof fn lemma_side_panel_frame(
    joinery: Joinery,
    dimensions: ContainerDimensions,
    x: int,
    y: int,
    rows: int,
    t: int,
    primary_color: Seq<char>,
    secondary_color: Seq<char>,
)
    requires
        0 <= t,
        0 <= rows,
        dimensions.side_wing_from_box_top <= dimensions.height,
        joinery.fits_depth(dimensions.depth as int, 1),
    ensures
        side_panel_frame(dimensions, x, y, rows, t).holds_all(
            side_panel(joinery, dimensions, x, y, rows, t, primary_color, secondary_color),
        ),
{
    let frame = side_panel_frame(dimensions, x, y, rows, t);
    lemma_multiples_grow(dimensions.height as int, 0, rows);
    lemma_row_slots_frame(joinery, dimensions, x, y, rows, t, primary_color, rows as nat);
    let vertices = side_panel_outline(
        joinery,
        x,
        y,
        dimensions.depth as int,
        dimensions.height * rows,
        t,
    );
    let outline = seq![PathView { vertices, stroke: secondary_color }];
    assert(frame.holds_outline(vertices));
    assert(frame.holds_all(outline));
    lemma_frames_join(
        outline,
        frame,
        row_slots(joinery, dimensions, x, y, t, primary_color, rows as nat),
        frame,
        frame,
    );
}

/// The first `count` side panels stay inside the rectangle that starts at
/// the top of the sheet at abscissa `x`, is as long as one panel, and is
/// `count` depths and clearances high.
pub proof fn lemma_side_panels_frame(
    joinery: Joinery,
    dimensions: ContainerDimensions,
    x: int,
    rows: int,
    t: int,
    primary_color: Seq<char>,
    secondary_color: Seq<char>,
    count: nat,
)
    requires
        0 <= t,
        0 <= rows,
        dimensions.side_wing_from_box_top <= dimensions.height,
        joinery.fits_depth(dimensions.depth as int, 1),
    ensures
        (Frame {
            left: x,
            top: 0,
            right: x + dimensions.height * rows + 2 * t,
            bottom: side_panel_y(joinery, dimensions, count as int),
        }).holds_all(
            side_panels(joinery, dimensions, x, rows, t, primary_color, secondary_color, count),
        ),
    decreases count,
{
    if count > 0 {
        let right = x + dimensions.height * rows + 2 * t;
        let stride = dimensions.depth + joinery.clearance_between_paths;
        let y = side_panel_y(joinery, dimensions, count - 1);
        lemma_side_panels_frame(
            joinery,
            dimensions,
            x,
            rows,
            t,
            primary_color,
            secondary_color,
            (count - 1) as nat,
        );
        lemma_side_panel_frame(joinery, dimensions, x, y, rows, t, primary_color, secondary_color);
        lemma_multiples_grow(stride, count - 1, count as int);
        lemma_frames_join(
            side_panels(
                joinery,
                dimensions,
                x,
                rows,
                t,
                primary_color,
                secondary_color,
                (count - 1) as nat,
            ),
            Frame { left: x, top: 0, right, bottom: y },
            side_panel(joinery, dimensions, x, y, rows, t, primary_color, secondary_color),
            side_panel_frame(dimensions, x, y, rows, t),
            Frame { left: x, top: 0, right, bottom: side_panel_y(joinery, dimensions, count as int) },
        );
    }
}

/// A side panel with at least some length between its taps, on a depth that
/// leaves the side taps apart, does not cross or touch itself.
pub proof fn lemma_side_panel_outline_simple(
    joinery: Joinery,
    x: int,
    y: int,
    depth: int,
    inner: int,
    t: int,
)
    requires
        0 < t,
        0 < inner,
        joinery.side_taps_have_room(depth),
    ensures
        simple(side_panel_outline(joinery, x, y, depth, inner, t)),
{
}

/// With a positive material thickness and slot width, no wing slot of a
/// panel crosses or touches itself.
pub proof fn lemma_row_slots_simple(
    joinery: Joinery,
    dimensions: ContainerDimensions,
    x: int,
    y: int,
    t: int,
    color: Seq<char>,
    rows: nat,
)
    requires
        0 < t,
        0 < joinery.side_wing_slot_width,
    ensures
        all_simple(row_slots(joinery, dimensions, x, y, t, color, rows)),
    decreases rows,
{
    if rows > 0 {
        lemma_row_slots_simple(joinery, dimensions, x, y, t, color, (rows - 1) as nat);
        let depth = dimensions.depth as int;
        let at = wing_slot_x(dimensions, x, t, rows - 1);
        let added = wing_slots(joinery, depth, at, y, t, color);
        assert forall|zone: int| 0 <= zone < added.len() implies simple(
            #[trigger] added[zone].vertices,
        ) by {
            lemma_slot_simple(
                at,
                y + joinery.slot_zone_start(depth, zone),
                t,
                joinery.side_wing_slot_width as int,
            );
        }
        lemma_all_simple_concat(
            row_slots(joinery, dimensions, x, y, t, color, (rows - 1) as nat),
            added,
        );
    }
}

/// With at least one row of a positive height, a positive material thickness
/// and slot width, and side taps that lie apart, no path of a run of side
/// panels crosses or touches itself.
pub proof fn lemma_side_panels_simple(
    joinery: Joinery,
    dimensions: ContainerDimensions,
    x: int,
    rows: int,
    t: int,
    primary_color: Seq<char>,
    secondary_color: Seq<char>,
    count: nat,
)
    requires
        0 < t,
        0 < rows,
        0 < dimensions.height,
        0 < joinery.side_wing_slot_width,
        joinery.side_taps_have_room(dimensions.depth as int),
    ensures
        all_simple(
            side_panels(joinery, dimensions, x, rows, t, primary_color, secondary_color, count),
        ),
    decreases count,
{
    if count > 0 {
        lemma_side_panels_simple(
            joinery,
            dimensions,
            x,
            rows,
            t,
            primary_color,
            secondary_color,
            (count - 1) as nat,
        );
        let y = side_panel_y(joinery, dimensions, count - 1);
        let inner = dimensions.height * rows;
        let outline = PathView {
            vertices: side_panel_outline(joinery, x, y, dimensions.depth as int, inner, t),
            stroke: secondary_color,
        };
        lemma_multiples_grow(dimensions.height as int, 1, rows);
        lemma_side_panel_outline_simple(joinery, x, y, dimensions.depth as int, inner, t);
        lemma_row_slots_simple(joinery, dimensions, x, y, t, primary_color, rows as nat);
        lemma_all_simple_concat(
            seq![outline],
            row_slots(joinery, dimensions, x, y, t, primary_color, rows as nat),
        );
        lemma_all_simple_concat(
            side_panels(
                joinery,
                dimensions,
                x,
                rows,
                t,
                primary_color,
                secondary_color,
                (count - 1) as nat,
            ),
            side_panel(joinery, dimensions, x, y, rows, t, primary_color, secondary_color),
        );
    }
}

} // verus!
