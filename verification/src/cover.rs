//! The top and bottom covers: one outline spanning all columns, notched at
//! both ends for the outer side panels, and a pair of slots for every inner
//! column divider.

use vstd::prelude::*;
use crate::arith::lemma_multiples_grow;
use crate::container::ContainerDimensions;
use crate::geometry::{
    Document,
    Frame,
    Outline,
    OutlineBuilder,
    Path,
    PathView,
    Point,
    all_closed_rectilinear,
    all_simple,
    closed_rectilinear,
    simple,
    lemma_all_closed_rectilinear_concat,
    lemma_all_simple_concat,
    lemma_frames_join,
    lemma_slot_closed_rectilinear,
    lemma_slot_frame,
    lemma_slot_simple,
    slot,
    slot_outline,
};
use crate::joinery::Joinery;

verus! {

/// Length of a cover: every column, and one material thickness at each end.
pub open spec fn cover_length(column_width: int, columns: int, t: int) -> int {
    t + column_width * columns + t
}

/// The cover outline with its origin at `(x, y)`: `length` long and `depth`
/// deep, with a notch of depth `t` cut into each end over both side taps.
pub open spec fn cover_outline(joinery: Joinery, x: int, y: int, depth: int, length: int, t: int) -> Seq<
    (int, int),
> {
    let front_start = y + joinery.side_tap_start(depth, 0);
    let front_end = y + joinery.side_tap_end(depth, 0);
    let back_start = y + joinery.side_tap_start(depth, 1);
    let back_end = y + joinery.side_tap_end(depth, 1);
    let end = x + length;
    seq![
        (x, y),
        (x, front_start),
        (x + t, front_start),
        (x + t, front_end),
        (x, front_end),
        (x, back_start),
        (x + t, back_start),
        (x + t, back_end),
        (x, back_end),
        (x, y + depth),
        (end, y + depth),
        (end, back_end),
        (end - t, back_end),
        (end - t, back_start),
        (end, back_start),
        (end, front_end),
        (end - t, front_end),
        (end - t, front_start),
        (end, front_start),
        (end, y),
    ]
}

/// The two slots that receive the side taps of one column divider standing at
/// abscissa `x` on a cover whose origin is at height `y`.
pub open spec fn divider_slot_pair(
    joinery: Joinery,
    depth: int,
    x: int,
    y: int,
    t: int,
    color: Seq<char>,
) -> Seq<PathView> {
    seq![
        slot(x, y + joinery.side_tap_start(depth, 0), t, joinery.side_tap_width as int, color),
        slot(x, y + joinery.side_tap_start(depth, 1), t, joinery.side_tap_width as int, color),
    ]
}

/// The slot pairs of the first `count` column dividers, left to right;
/// divider `i` stands `i + 1` column widths from the cover's origin.
pub open spec fn divider_slots(
    joinery: Joinery,
    depth: int,
    x: int,
    y: int,
    column_width: int,
    t: int,
    color: Seq<char>,
    count: nat,
) -> Seq<PathView>
    decreases count,
{
    if count == 0 {
        Seq::empty()
    } else {
        divider_slots(joinery, depth, x, y, column_width, t, color, (count - 1) as nat)
            + divider_slot_pair(joinery, depth, x + column_width * count, y, t, color)
    }
}

/// One cover with its origin at `(x, y)`: the outline in the secondary
/// colour, then the slots of the `columns - 1` dividers in the primary colour.
pub open spec fn cover(
    joinery: Joinery,
    depth: int,
    x: int,
    y: int,
    columns: int,
    column_width: int,
    t: int,
    primary_color: Seq<char>,
    secondary_color: Seq<char>,
) -> Seq<PathView> {
    seq![
        PathView {
            vertices: cover_outline(
                joinery,
                x,
                y,
                depth,
                cover_length(column_width, columns, t),
                t,
            ),
            stroke: secondary_color,
        },
    ] + divider_slots(
        joinery,
        depth,
        x,
        y,
        column_width,
        t,
        primary_color,
        (columns - 1) as nat,
    )
}

/// The top cover at height 0 and the bottom cover one depth and one
/// clearance below it.
pub open spec fn top_and_bottom(
    joinery: Joinery,
    depth: int,
    x: int,
    columns: int,
    column_width: int,
    t: int,
    primary_color: Seq<char>,
    secondary_color: Seq<char>,
) -> Seq<PathView> {
    cover(joinery, depth, x, 0, columns, column_width, t, primary_color, secondary_color) + cover(
        joinery,
        depth,
        x,
        depth + joinery.clearance_between_paths,
        columns,
        column_width,
        t,
        primary_color,
        secondary_color,
    )
}

/// The outline of a cover with its origin at `(x, y)` can be drawn in machine
/// integers.
pub open spec fn cover_outline_fits(
    joinery: Joinery,
    depth: int,
    x: int,
    y: int,
    columns: int,
    column_width: int,
    t: int,
) -> bool {
    &&& joinery.side_tap_reach() <= depth
    &&& x + cover_length(column_width, columns, t) <= usize::MAX
    &&& y + depth <= usize::MAX
}

/// A cover with its origin at `(x, y)` can be drawn in machine integers: its
/// outline can, and there is at least one column, so that the dividers can
/// be counted.
pub open spec fn cover_fits(
    joinery: Joinery,
    depth: int,
    x: int,
    y: int,
    columns: int,
    column_width: int,
    t: int,
) -> bool {
    &&& 1 <= columns
    &&& cover_outline_fits(joinery, depth, x, y, columns, column_width, t)
}

/// Length of a cover.
pub fn top_width(column_width: usize, columns: usize, material_thickness: usize) -> (width: usize)
    requires
        cover_length(column_width as int, columns as int, material_thickness as int)
            <= usize::MAX,
    ensures
        width == cover_length(column_width as int, columns as int, material_thickness as int),
{
    assert(0 <= column_width * columns) by (nonlinear_arith);
    (material_thickness + column_width * columns) + material_thickness
}

/// Walks the outline of one cover from its origin.
pub fn generate_top_path(
    dimensions: &ContainerDimensions,
    starting_point_x: usize,
    starting_point_y: usize,
    columns: usize,
    column_width: usize,
    material_thickness: usize,
    joinery: &Joinery,
) -> (outline: Outline)
    requires
        cover_outline_fits(
            *joinery,
            dimensions.depth as int,
            starting_point_x as int,
            starting_point_y as int,
            columns as int,
            column_width as int,
            material_thickness as int,
        ),
    ensures
        outline@ == cover_outline(
            *joinery,
            starting_point_x as int,
            starting_point_y as int,
            dimensions.depth as int,
            cover_length(column_width as int, columns as int, material_thickness as int),
            material_thickness as int,
        ),
{
    assert(0 <= column_width * columns) by (nonlinear_arith);
    let top_width = top_width(column_width, columns, material_thickness);
    let tap_reach = joinery.side_tap_from_front + joinery.side_tap_width;
    OutlineBuilder::move_to(Point { x: starting_point_x, y: starting_point_y })
        .vertical_line_to(starting_point_y + joinery.side_tap_from_front)
        .horizontal_line_to(starting_point_x + material_thickness)
        .vertical_line_to(starting_point_y + tap_reach)
        .horizontal_line_to(starting_point_x)
        .vertical_line_to(starting_point_y + (dimensions.depth - tap_reach))
        .horizontal_line_to(starting_point_x + material_thickness)
        .vertical_line_to(starting_point_y + (dimensions.depth - joinery.side_tap_from_front))
        .horizontal_line_to(starting_point_x)
        .vertical_line_to(starting_point_y + dimensions.depth)
        .horizontal_line_to(starting_point_x + top_width)
        .vertical_line_to(starting_point_y + (dimensions.depth - joinery.side_tap_from_front))
        .horizontal_line_to(starting_point_x + (top_width - material_thickness))
        .vertical_line_to(starting_point_y + (dimensions.depth - tap_reach))
        .horizontal_line_to(starting_point_x + top_width)
        .vertical_line_to(starting_point_y + tap_reach)
        .horizontal_line_to(starting_point_x + (top_width - material_thickness))
        .vertical_line_to(starting_point_y + joinery.side_tap_from_front)
        .horizontal_line_to(starting_point_x + top_width)
        .vertical_line_to(starting_point_y)
        .close()
}

/// Draws the slot for one side tap of a column divider, its near corner at
/// `(x, y)`.
pub fn generate_side_tap_path(
    x: usize,
    y: usize,
    material_thickness: usize,
    color: &str,
    joinery: &Joinery,
) -> (path: Path)
    requires
        x + material_thickness <= usize::MAX,
        y + joinery.side_tap_width <= usize::MAX,
    ensures
        path@ == slot(
            x as int,
            y as int,
            material_thickness as int,
            joinery.side_tap_width as int,
            color@,
        ),
{
    let data = OutlineBuilder::move_to(Point { x, y })
        .vertical_line_to(y + joinery.side_tap_width)
        .horizontal_line_to(x + material_thickness)
        .vertical_line_to(y)
        .close();
    assert(data@ =~= slot_outline(
        x as int,
        y as int,
        material_thickness as int,
        joinery.side_tap_width as int,
    ));
    Path::new(data, color)
}

/// Draws one cover with its origin at `(starting_point_x, starting_point_y)`:
/// the outline, then the slot pair of every column divider.
pub fn generate_cover_path(
    document: &mut Document,
    dimensions: &ContainerDimensions,
    starting_point_x: usize,
    starting_point_y: usize,
    columns: usize,
    column_width: usize,
    material_thickness: usize,
    primary_color: &str,
    secondary_color: &str,
    joinery: &Joinery,
)
    requires
        cover_fits(
            *joinery,
            dimensions.depth as int,
            starting_point_x as int,
            starting_point_y as int,
            columns as int,
            column_width as int,
            material_thickness as int,
        ),
    ensures
        final(document)@ == old(document)@.with(
            cover(
                *joinery,
                dimensions.depth as int,
                starting_point_x as int,
                starting_point_y as int,
                columns as int,
                column_width as int,
                material_thickness as int,
                primary_color@,
                secondary_color@,
            ),
        ),
{
    let ghost before = document@;
    let ghost depth = dimensions.depth as int;
    let ghost length = cover_length(column_width as int, columns as int, material_thickness as int);
    let top_path_data = generate_top_path(
        dimensions,
        starting_point_x,
        starting_point_y,
        columns,
        column_width,
        material_thickness,
        joinery,
    );
    let path = Path::new(top_path_data, secondary_color);
    let ghost outline_path = path@;
    document.append(path);
    assert(document@.paths =~= before.paths + (seq![outline_path] + Seq::<PathView>::empty()));

    for i in 0..columns - 1
        invariant
            1 <= columns,
            joinery.side_tap_reach() <= depth,
            depth == dimensions.depth,
            length == cover_length(column_width as int, columns as int, material_thickness as int),
            starting_point_x + length <= usize::MAX,
            starting_point_y + depth <= usize::MAX,
            document@.width == before.width,
            document@.height == before.height,
            document@.paths == before.paths + (seq![outline_path] + divider_slots(
                *joinery,
                depth,
                starting_point_x as int,
                starting_point_y as int,
                column_width as int,
                material_thickness as int,
                primary_color@,
                i as nat,
            )),
    {
        proof {
            lemma_multiples_grow(column_width as int, i + 1, columns as int);
        }
        let x = starting_point_x + column_width * (i + 1);
        let y = starting_point_y + joinery.side_tap_from_front;
        let side_tap_hole_path = generate_side_tap_path(
            x,
            y,
            material_thickness,
            primary_color,
            joinery,
        );
        document.append(side_tap_hole_path);

        let side_tap_hole_path = generate_side_tap_path(
            x,
            starting_point_y + (dimensions.depth - (joinery.side_tap_from_front
                + joinery.side_tap_width)),
            material_thickness,
            primary_color,
            joinery,
        );
        document.append(side_tap_hole_path);
        assert(document@.paths =~= before.paths + (seq![outline_path] + divider_slots(
            *joinery,
            depth,
            starting_point_x as int,
            starting_point_y as int,
            column_width as int,
            material_thickness as int,
            primary_color@,
            (i + 1) as nat,
        )));
    }
}

/// Draws the top cover and, one depth and one clearance below it, the bottom
/// cover, both starting at abscissa `starting_point_x`.
pub fn generate_top_and_bottom_pieces(
    document: &mut Document,
    dimensions: &ContainerDimensions,
    starting_point_x: usize,
    columns: usize,
    column_width: usize,
    material_thickness: usize,
    primary_color: &str,
    secondary_color: &str,
    joinery: &Joinery,
)
    requires
        cover_fits(
            *joinery,
            dimensions.depth as int,
            starting_point_x as int,
            dimensions.depth + joinery.clearance_between_paths,
            columns as int,
            column_width as int,
            material_thickness as int,
        ),
    ensures
        final(document)@ == old(document)@.with(
            top_and_bottom(
                *joinery,
                dimensions.depth as int,
                starting_point_x as int,
                columns as int,
                column_width as int,
                material_thickness as int,
                primary_color@,
                secondary_color@,
            ),
        ),
{
    generate_cover_path(
        document,
        dimensions,
        starting_point_x,
        0,
        columns,
        column_width,
        material_thickness,
        primary_color,
        secondary_color,
        joinery,
    );

    generate_cover_path(
        document,
        dimensions,
        starting_point_x,
        dimensions.depth + joinery.clearance_between_paths,
        columns,
        column_width,
        material_thickness,
        primary_color,
        secondary_color,
        joinery,
    );
    assert(final(document)@.paths =~= old(document)@.paths + top_and_bottom(
        *joinery,
        dimensions.depth as int,
        starting_point_x as int,
        columns as int,
        column_width as int,
        material_thickness as int,
        primary_color@,
        secondary_color@,
    ));
}

/// `count` column dividers take two slots each.
pub proof fn lemma_divider_slots_len(
    joinery: Joinery,
    depth: int,
    x: int,
    y: int,
    column_width: int,
    t: int,
    color: Seq<char>,
    count: nat,
)
    ensures
        divider_slots(joinery, depth, x, y, column_width, t, color, count).len() == 2 * count,
    decreases count,
{
    if count > 0 {
        lemma_divider_slots_len(joinery, depth, x, y, column_width, t, color, (count - 1) as nat);
    }
}

/// A cover is its outline and two slots for each of the `columns - 1`
/// dividers; a cover over a single column has no slot at all.
pub proof fn lemma_cover_len(
    joinery: Joinery,
    depth: int,
    x: int,
    y: int,
    columns: int,
    column_width: int,
    t: int,
    primary_color: Seq<char>,
    secondary_color: Seq<char>,
)
    requires
        1 <= columns,
    ensures
        cover(
            joinery,
            depth,
            x,
            y,
            columns,
            column_width,
            t,
            primary_color,
            secondary_color,
        ).len() == 1 + 2 * (columns - 1),
        columns == 1 ==> cover(
            joinery,
            depth,
            x,
            y,
            columns,
            column_width,
            t,
            primary_color,
            secondary_color,
        ) == seq![
            PathView {
                vertices: cover_outline(
                    joinery,
                    x,
                    y,
                    depth,
                    cover_length(column_width, columns, t),
                    t,
                ),
                stroke: secondary_color,
            },
        ],
{
    lemma_divider_slots_len(
        joinery,
        depth,
        x,
        y,
        column_width,
        t,
        primary_color,
        (columns - 1) as nat,
    );
    if columns == 1 {
        assert(cover(
            joinery,
            depth,
            x,
            y,
            columns,
            column_width,
            t,
            primary_color,
            secondary_color,
        ) =~= seq![
            PathView {
                vertices: cover_outline(
                    joinery,
                    x,
                    y,
                    depth,
                    cover_length(column_width, columns, t),
                    t,
                ),
                stroke: secondary_color,
            },
        ]);
    }
}

/// A cover outline is a closed polygon of horizontal and vertical edges.
pub proof fn lemma_cover_outline_closed_rectilinear(
    joinery: Joinery,
    x: int,
    y: int,
    depth: int,
    length: int,
    t: int,
)
    ensures
        closed_rectilinear(cover_outline(joinery, x, y, depth, length, t)),
{
}

/// Every divider slot is a closed polygon of horizontal and vertical edges.
pub proof fn lemma_divider_slots_closed_rectilinear(
    joinery: Joinery,
    depth: int,
    x: int,
    y: int,
    column_width: int,
    t: int,
    color: Seq<char>,
    count: nat,
)
    ensures
        all_closed_rectilinear(
            divider_slots(joinery, depth, x, y, column_width, t, color, count),
        ),
    decreases count,
{
    if count > 0 {
        lemma_divider_slots_closed_rectilinear(
            joinery,
            depth,
            x,
            y,
            column_width,
            t,
            color,
            (count - 1) as nat,
        );
        let at = x + column_width * count;
        lemma_slot_closed_rectilinear(
            at,
            y + joinery.side_tap_start(depth, 0),
            t,
            joinery.side_tap_width as int,
        );
        lemma_slot_closed_rectilinear(
            at,
            y + joinery.side_tap_start(depth, 1),
            t,
            joinery.side_tap_width as int,
        );
        lemma_all_closed_rectilinear_concat(
            divider_slots(joinery, depth, x, y, column_width, t, color, (count - 1) as nat),
            divider_slot_pair(joinery, depth, at, y, t, color),
        );
    }
}

/// Every path of the two covers is a closed polygon of horizontal and
/// vertical edges.
pub proof fn lemma_top_and_bottom_closed_rectilinear(
    joinery: Joinery,
    depth: int,
    x: int,
    columns: int,
    column_width: int,
    t: int,
    primary_color: Seq<char>,
    secondary_color: Seq<char>,
)
    ensures
        all_closed_rectilinear(
            top_and_bottom(
                joinery,
                depth,
                x,
                columns,
                column_width,
                t,
                primary_color,
                secondary_color,
            ),
        ),
{
    let length = cover_length(column_width, columns, t);
    let lower = depth + joinery.clearance_between_paths;
    lemma_cover_outline_closed_rectilinear(joinery, x, 0, depth, length, t);
    lemma_cover_outline_closed_rectilinear(joinery, x, lower, depth, length, t);
    lemma_divider_slots_closed_rectilinear(
        joinery,
        depth,
        x,
        0,
        column_width,
        t,
        primary_color,
        (columns - 1) as nat,
    );
    lemma_divider_slots_closed_rectilinear(
        joinery,
        depth,
        x,
        lower,
        column_width,
        t,
        primary_color,
        (columns - 1) as nat,
    );
    let top = cover(joinery, depth, x, 0, columns, column_width, t, primary_color, secondary_color);
    let bottom = cover(
        joinery,
        depth,
        x,
        lower,
        columns,
        column_width,
        t,
        primary_color,
        secondary_color,
    );
    lemma_all_closed_rectilinear_concat(
        seq![
            PathView { vertices: cover_outline(joinery, x, 0, depth, length, t), stroke: secondary_color },
        ],
        divider_slots(joinery, depth, x, 0, column_width, t, primary_color, (columns - 1) as nat),
    );
    lemma_all_closed_rectilinear_concat(
        seq![
            PathView {
                vertices: cover_outline(joinery, x, lower, depth, length, t),
                stroke: secondary_color,
            },
        ],
        divider_slots(
            joinery,
            depth,
            x,
            lower,
            column_width,
            t,
            primary_color,
            (columns - 1) as nat,
        ),
    );
    lemma_all_closed_rectilinear_concat(top, bottom);
}

/// The rectangle a cover with its origin at `(x, y)` is drawn in: as long as
/// the cover, and as high as the container is deep.
pub open spec fn cover_frame(x: int, y: int, depth: int, length: int) -> Frame {
    Frame { left: x, top: y, right: x + length, bottom: y + depth }
}

/// The slots of the first `count` dividers stay on the cover as long as there
/// are more columns than that.
pub proof fn lemma_divider_slots_frame(
    joinery: Joinery,
    depth: int,
    x: int,
    y: int,
    columns: int,
    column_width: int,
    t: int,
    color: Seq<char>,
    count: nat,
)
    requires
        0 <= t,
        0 <= column_width,
        count < columns,
        joinery.side_tap_reach() <= depth,
    ensures
        cover_frame(x, y, depth, cover_length(column_width, columns, t)).holds_all(
            divider_slots(joinery, depth, x, y, column_width, t, color, count),
        ),
    decreases count,
{
    let frame = cover_frame(x, y, depth, cover_length(column_width, columns, t));
    if count > 0 {
        lemma_divider_slots_frame(
            joinery,
            depth,
            x,
            y,
            columns,
            column_width,
            t,
            color,
            (count - 1) as nat,
        );
        lemma_multiples_grow(column_width, count as int, columns);
        let at = x + column_width * count;
        let pair = divider_slot_pair(joinery, depth, at, y, t, color);
        let width = joinery.side_tap_width as int;
        lemma_slot_frame(at, y + joinery.side_tap_start(depth, 0), t, width);
        lemma_slot_frame(at, y + joinery.side_tap_start(depth, 1), t, width);
        assert forall|i: int| 0 <= i < pair.len() implies frame.holds_outline(
            #[trigger] pair[i].vertices,
        ) by {
            let tap = i;
            let own = Frame {
                left: at,
                top: y + joinery.side_tap_start(depth, tap),
                right: at + t,
                bottom: y + joinery.side_tap_start(depth, tap) + width,
            };
            assert(own.holds_outline(pair[i].vertices));
            assert forall|k: int| 0 <= k < pair[i].vertices.len() implies frame.holds(
                #[trigger] pair[i].vertices[k],
            ) by {
                assert(own.holds(pair[i].vertices[k]));
            }
        }
        lemma_frames_join(
            divider_slots(joinery, depth, x, y, column_width, t, color, (count - 1) as nat),
            frame,
            pair,
            frame,
            frame,
        );
    }
}

/// A cover, outline and slots, stays inside its rectangle.
pub proof fn lemma_cover_frame(
    joinery: Joinery,
    depth: int,
    x: int,
    y: int,
    columns: int,
    column_width: int,
    t: int,
    primary_color: Seq<char>,
    secondary_color: Seq<char>,
)
    requires
        0 <= t,
        0 <= column_width,
        1 <= columns,
        joinery.side_tap_reach() <= depth,
    ensures
        cover_frame(x, y, depth, cover_length(column_width, columns, t)).holds_all(
            cover(joinery, depth, x, y, columns, column_width, t, primary_color, secondary_color),
        ),
{
    let length = cover_length(column_width, columns, t);
    let frame = cover_frame(x, y, depth, length);
    lemma_multiples_grow(column_width, 0, columns);
    lemma_divider_slots_frame(
        joinery,
        depth,
        x,
        y,
        columns,
        column_width,
        t,
        primary_color,
        (columns - 1) as nat,
    );
    let outline = seq![
        PathView { vertices: cover_outline(joinery, x, y, depth, length, t), stroke: secondary_color },
    ];
    assert(frame.holds_outline(cover_outline(joinery, x, y, depth, length, t)));
    assert(frame.holds_all(outline));
    lemma_frames_join(
        outline,
        frame,
        divider_slots(joinery, depth, x, y, column_width, t, primary_color, (columns - 1) as nat),
        frame,
        frame,
    );
}

/// Both covers stay inside the rectangle that starts at the top of the sheet
/// at abscissa `x`, is as long as a cover, and is two depths and one
/// clearance high.
pub proof fn lemma_top_and_bottom_frame(
    joinery: Joinery,
    depth: int,
    x: int,
    columns: int,
    column_width: int,
    t: int,
    primary_color: Seq<char>,
    secondary_color: Seq<char>,
)
    requires
        0 <= t,
        0 <= column_width,
        1 <= columns,
        joinery.side_tap_reach() <= depth,
    ensures
        (Frame {
            left: x,
            top: 0,
            right: x + cover_length(column_width, columns, t),
            bottom: 2 * depth + joinery.clearance_between_paths,
        }).holds_all(
            top_and_bottom(
                joinery,
                depth,
                x,
                columns,
                column_width,
                t,
                primary_color,
                secondary_color,
            ),
        ),
{
    let length = cover_length(column_width, columns, t);
    let lower = depth + joinery.clearance_between_paths;
    lemma_cover_frame(joinery, depth, x, 0, columns, column_width, t, primary_color, secondary_color);
    lemma_cover_frame(
        joinery,
        depth,
        x,
        lower,
        columns,
        column_width,
        t,
        primary_color,
        secondary_color,
    );
    lemma_frames_join(
        cover(joinery, depth, x, 0, columns, column_width, t, primary_color, secondary_color),
        cover_frame(x, 0, depth, length),
        cover(joinery, depth, x, lower, columns, column_width, t, primary_color, secondary_color),
        cover_frame(x, lower, depth, length),
        Frame { left: x, top: 0, right: x + length, bottom: 2 * depth + joinery.clearance_between_paths },
    );
}

/// A cover that is longer than its two notches are deep, on a depth that
/// leaves the side taps apart, does not cross or touch itself.
pub proof fn lemma_cover_outline_simple(
    joinery: Joinery,
    x: int,
    y: int,
    depth: int,
    length: int,
    t: int,
)
    requires
        0 < t,
        2 * t < length,
        joinery.side_taps_have_room(depth),
    ensures
        simple(cover_outline(joinery, x, y, depth, length, t)),
{
}

/// With a positive material thickness and side tap width, no divider slot
/// crosses or touches itself.
pub proof fn lemma_divider_slots_simple(
    joinery: Joinery,
    depth: int,
    x: int,
    y: int,
    column_width: int,
    t: int,
    color: Seq<char>,
    count: nat,
)
    requires
        0 < t,
        0 < joinery.side_tap_width,
    ensures
        all_simple(divider_slots(joinery, depth, x, y, column_width, t, color, count)),
    decreases count,
{
    if count > 0 {
        lemma_divider_slots_simple(
            joinery,
            depth,
            x,
            y,
            column_width,
            t,
            color,
            (count - 1) as nat,
        );
        let at = x + column_width * count;
        lemma_slot_simple(
            at,
            y + joinery.side_tap_start(depth, 0),
            t,
            joinery.side_tap_width as int,
        );
        lemma_slot_simple(
            at,
            y + joinery.side_tap_start(depth, 1),
            t,
            joinery.side_tap_width as int,
        );
        lemma_all_simple_concat(
            divider_slots(joinery, depth, x, y, column_width, t, color, (count - 1) as nat),
            divider_slot_pair(joinery, depth, at, y, t, color),
        );
    }
}

/// With a positive material thickness and column width, and side taps that
/// lie apart, no path of the two covers crosses or touches itself.
pub proof fn lemma_top_and_bottom_simple(
    joinery: Joinery,
    depth: int,
    x: int,
    columns: int,
    column_width: int,
    t: int,
    primary_color: Seq<char>,
    secondary_color: Seq<char>,
)
    requires
        0 < t,
        0 < column_width,
        1 <= columns,
        joinery.side_taps_have_room(depth),
    ensures
        all_simple(
            top_and_bottom(
                joinery,
                depth,
                x,
                columns,
                column_width,
                t,
                primary_color,
                secondary_color,
            ),
        ),
{
    let length = cover_length(column_width, columns, t);
    let lower = depth + joinery.clearance_between_paths;
    lemma_multiples_grow(column_width, 1, columns);
    lemma_cover_outline_simple(joinery, x, 0, depth, length, t);
    lemma_cover_outline_simple(joinery, x, lower, depth, length, t);
    lemma_divider_slots_simple(
        joinery,
        depth,
        x,
        0,
        column_width,
        t,
        primary_color,
        (columns - 1) as nat,
    );
    lemma_divider_slots_simple(
        joinery,
        depth,
        x,
        lower,
        column_width,
        t,
        primary_color,
        (columns - 1) as nat,
    );
    lemma_all_simple_concat(
        seq![
            PathView { vertices: cover_outline(joinery, x, 0, depth, length, t), stroke: secondary_color },
        ],
        divider_slots(joinery, depth, x, 0, column_width, t, primary_color, (columns - 1) as nat),
    );
    lemma_all_simple_concat(
        seq![
            PathView {
                vertices: cover_outline(joinery, x, lower, depth, length, t),
                stroke: secondary_color,
            },
        ],
        divider_slots(
            joinery,
            depth,
            x,
            lower,
            column_width,
            t,
            primary_color,
            (columns - 1) as nat,
        ),
    );
    lemma_all_simple_concat(
        cover(joinery, depth, x, 0, columns, column_width, t, primary_color, secondary_color),
        cover(joinery, depth, x, lower, columns, column_width, t, primary_color, secondary_color),
    );
}

} // verus!
