//! The pair of interlocking side wing profiles that brace one box position
//! front to back.

use vstd::prelude::*;
use crate::arith::lemma_multiples_grow;
use crate::container::ContainerDimensions;
use crate::geometry::{
    Document,
    Frame,
    Outline,
    OutlineBuilder,
    Path,
    PathView,
    Point,
    all_closed_rectilinear,
    all_simple,
    closed_rectilinear,
    simple,
    lemma_all_closed_rectilinear_concat,
    lemma_all_simple_concat,
    lemma_frames_join,
};
use crate::joinery::{
    Joinery,
    fourth_side_wing_tap_position_from_front,
    second_side_wing_tap_position_from_front,
    third_side_wing_tap_position_from_front,
};

verus! {

/// The wing profile with its origin at `(x, y)`: a strip as long as the box is
/// deep and `wing_width` wide, with tabs of depth `t` hanging from its lower
/// edge over slot zones 0 and 2.
pub open spec fn side_wing_outline(
    joinery: Joinery,
    x: int,
    y: int,
    t: int,
    depth: int,
    wing_width: int,
) -> Seq<(int, int)> {
    let edge = y + wing_width;
    let tip = edge + t;
    seq![
        (x, y),
        (x, edge),
        (x + joinery.slot_zone_start(depth, 0), edge),
        (x + joinery.slot_zone_start(depth, 0), tip),
        (x + joinery.slot_zone_end(depth, 0), tip),
        (x + joinery.slot_zone_end(depth, 0), edge),
        (x + joinery.slot_zone_start(depth, 2), edge),
        (x + joinery.slot_zone_start(depth, 2), tip),
        (x + joinery.slot_zone_end(depth, 2), tip),
        (x + joinery.slot_zone_end(depth, 2), edge),
        (x + depth, edge),
        (x + depth, y),
    ]
}

/// The inverted wing profile with its origin at `(x, y)`: the complement of
/// the wing profile. Its tabs rise by `t` from its upper edge over slot zones
/// 1 and 3, and the strip below them is `wing_width` wide.
pub open spec fn side_wing_inverted_outline(
    joinery: Joinery,
    x: int,
    y: int,
    t: int,
    depth: int,
    wing_width: int,
) -> Seq<(int, int)> {
    let edge = y + t;
    seq![
        (x, edge),
        (x + joinery.slot_zone_start(depth, 1), edge),
        (x + joinery.slot_zone_start(depth, 1), y),
        (x + joinery.slot_zone_end(depth, 1), y),
        (x + joinery.slot_zone_end(depth, 1), edge),
        (x + joinery.slot_zone_start(depth, 3), edge),
        (x + joinery.slot_zone_start(depth, 3), y),
        (x + joinery.slot_zone_end(depth, 3), y),
        (x + joinery.slot_zone_end(depth, 3), edge),
        (x + depth, edge),
        (x + depth, edge + wing_width),
        (x, edge + wing_width),
    ]
}

/// Either profile, stroked in `color`.
pub open spec fn side_wing(
    joinery: Joinery,
    x: int,
    y: int,
    t: int,
    depth: int,
    wing_width: int,
    inverted: bool,
    color: Seq<char>,
) -> PathView {
    PathView {
        vertices: if inverted {
            side_wing_inverted_outline(joinery, x, y, t, depth, wing_width)
        } else {
            side_wing_outline(joinery, x, y, t, depth, wing_width)
        },
        stroke: color,
    }
}

/// Height of one wing pair on the sheet: both strips, the tabs of one of
/// them, and the clearance between the two.
pub open spec fn pair_height(joinery: Joinery, wing_width: int, t: int) -> int {
    wing_width * 2 + joinery.clearance_between_paths + t
}

/// The two paths cut for one box position, the wing first, the inverted wing
/// one wing width and one clearance below it.
pub open spec fn side_wing_pair(
    joinery: Joinery,
    dimensions: ContainerDimensions,
    x: int,
    y: int,
    t: int,
    color: Seq<char>,
) -> Seq<PathView> {
    let depth = dimensions.depth as int;
    let wing_width = dimensions.side_wing_width as int;
    seq![
        side_wing(joinery, x, y, t, depth, wing_width, false, color),
        side_wing(
            joinery,
            x,
            y + wing_width + joinery.clearance_between_paths,
            t,
            depth,
            wing_width,
            true,
            color,
        ),
    ]
}

/// A wing profile with its origin at `(x, y)` can be drawn in machine
/// integers: the depth has room for the back slot group that the third slot
/// is measured by.
pub open spec fn side_wing_fits(
    joinery: Joinery,
    x: int,
    y: int,
    t: int,
    depth: int,
    wing_width: int,
) -> bool {
    &&& joinery.slot_group_length() <= depth
    &&& x + depth <= usize::MAX
    &&& y + wing_width + t <= usize::MAX
}

/// An inverted wing profile with its origin at `(x, y)` can be drawn in
/// machine integers: the depth has room for the one slot that the fourth
/// slot is measured by, and the end of the second slot can be computed.
pub open spec fn side_wing_inverted_fits(
    joinery: Joinery,
    x: int,
    y: int,
    t: int,
    depth: int,
    wing_width: int,
) -> bool {
    &&& joinery.side_wing_slot_from_front + joinery.side_wing_slot_width <= depth
    &&& x + joinery.slot_group_length() <= usize::MAX
    &&& x + depth <= usize::MAX
    &&& y + wing_width + t <= usize::MAX
}

/// Height of one wing pair on the sheet.
pub fn height_of_two_side_wings(
    side_wing_width: usize,
    material_thickness: usize,
    joinery: &Joinery,
) -> (height: usize)
    requires
        pair_height(*joinery, side_wing_width as int, material_thickness as int) <= usize::MAX,
    ensures
        height == pair_height(*joinery, side_wing_width as int, material_thickness as int),
{
    side_wing_width * 2 + joinery.clearance_between_paths + material_thickness
}

/// Walks the wing profile from its origin.
pub fn generate_side_wing_path(
    starting_point_x: usize,
    starting_point_y: usize,
    material_thickness: usize,
    box_depth: usize,
    box_side_wing_width: usize,
    joinery: &Joinery,
) -> (outline: Outline)
    requires
        side_wing_fits(
            *joinery,
            starting_point_x as int,
            starting_point_y as int,
            material_thickness as int,
            box_depth as int,
            box_side_wing_width as int,
        ),
    ensures
        outline@ == side_wing_outline(
            *joinery,
            starting_point_x as int,
            starting_point_y as int,
            material_thickness as int,
            box_depth as int,
            box_side_wing_width as int,
        ),
{
    let third = third_side_wing_tap_position_from_front(box_depth, joinery);
    OutlineBuilder::move_to(Point { x: starting_point_x, y: starting_point_y })
        .vertical_line_to(starting_point_y + box_side_wing_width)
        .horizontal_line_to(starting_point_x + joinery.side_wing_slot_from_front)
        .vertical_line_to(starting_point_y + material_thickness + box_side_wing_width)
        .horizontal_line_to(
            starting_point_x + joinery.side_wing_slot_from_front + joinery.side_wing_slot_width,
        )
        .vertical_line_to(starting_point_y + box_side_wing_width)
        .horizontal_line_to(starting_point_x + third)
        .vertical_line_to(starting_point_y + box_side_wing_width + material_thickness)
        .horizontal_line_to(starting_point_x + third + joinery.side_wing_slot_width)
        .vertical_line_to(starting_point_y + box_side_wing_width)
        .horizontal_line_to(starting_point_x + box_depth)
        .vertical_line_to(starting_point_y)
        .close()
}

/// Walks the inverted wing profile from its origin.
pub fn generate_side_wing_inverted_path(
    starting_point_x: usize,
    starting_point_y: usize,
    material_thickness: usize,
    box_depth: usize,
    box_side_wing_width: usize,
    joinery: &Joinery,
) -> (outline: Outline)
    requires
        side_wing_inverted_fits(
            *joinery,
            starting_point_x as int,
            starting_point_y as int,
            material_thickness as int,
            box_depth as int,
            box_side_wing_width as int,
        ),
    ensures
        outline@ == side_wing_inverted_outline(
            *joinery,
            starting_point_x as int,
            starting_point_y as int,
            material_thickness as int,
            box_depth as int,
            box_side_wing_width as int,
        ),
{
    let second = second_side_wing_tap_position_from_front(joinery);
    let fourth = fourth_side_wing_tap_position_from_front(box_depth, joinery);
    OutlineBuilder::move_to(
        Point { x: starting_point_x, y: starting_point_y + material_thickness },
    )
        .horizontal_line_to(starting_point_x + second)
        .vertical_line_to(starting_point_y)
        .horizontal_line_to(starting_point_x + second + joinery.side_wing_slot_width)
        .vertical_line_to(starting_point_y + material_thickness)
        .horizontal_line_to(starting_point_x + fourth)
        .vertical_line_to(starting_point_y)
        .horizontal_line_to(starting_point_x + (box_depth - joinery.side_wing_slot_from_front))
        .vertical_line_to(starting_point_y + material_thickness)
        .horizontal_line_to(starting_point_x + box_depth)
        .vertical_line_to(starting_point_y + material_thickness + box_side_wing_width)
        .horizontal_line_to(starting_point_x)
        .close()
}

/// Draws one profile of the pair, the inverted one if `inverted`, stroked in
/// `color`.
pub fn generate_side_wing(
    starting_point_x: usize,
    starting_point_y: usize,
    material_thickness: usize,
    box_depth: usize,
    box_side_wing_width: usize,
    inverted: bool,
    color: &str,
    joinery: &Joinery,
) -> (path: Path)
    requires
        if inverted {
            side_wing_inverted_fits(
                *joinery,
                starting_point_x as int,
                starting_point_y as int,
                material_thickness as int,
                box_depth as int,
                box_side_wing_width as int,
            )
        } else {
            side_wing_fits(
                *joinery,
                starting_point_x as int,
                starting_point_y as int,
                material_thickness as int,
                box_depth as int,
                box_side_wing_width as int,
            )
        },
    ensures
        path@ == side_wing(
            *joinery,
            starting_point_x as int,
            starting_point_y as int,
            material_thickness as int,
            box_depth as int,
            box_side_wing_width as int,
            inverted,
            color@,
        ),
{
    let wing_data = if inverted {
        generate_side_wing_inverted_path(
            starting_point_x,
            starting_point_y,
            material_thickness,
            box_depth,
            box_side_wing_width,
            joinery,
        )
    } else {
        generate_side_wing_path(
            starting_point_x,
            starting_point_y,
            material_thickness,
            box_depth,
            box_side_wing_width,
            joinery,
        )
    };
    Path::new(wing_data, color)
}

/// Draws the wing pair of one box position with its origin at
/// `(starting_point_x, starting_point_y)`.
pub fn generate_side_wing_pair(
    document: &mut Document,
    dimensions: &ContainerDimensions,
    starting_point_x: usize,
    starting_point_y: usize,
    material_thickness: usize,
    color: &str,
    joinery: &Joinery,
)
    requires
        joinery.slot_group_length() <= dimensions.depth,
        starting_point_x + dimensions.depth <= usize::MAX,
        starting_point_y + pair_height(
            *joinery,
            dimensions.side_wing_width as int,
            material_thickness as int,
        ) <= usize::MAX,
    ensures
        final(document)@ == old(document)@.with(
            side_wing_pair(
                *joinery,
                *dimensions,
                starting_point_x as int,
                starting_point_y as int,
                material_thickness as int,
                color@,
            ),
        ),
{
    let path = generate_side_wing(
        starting_point_x,
        starting_point_y,
        material_thickness,
        dimensions.depth,
        dimensions.side_wing_width,
        false,
        color,
        joinery,
    );
    document.append(path);
    let path = generate_side_wing(
        starting_point_x,
        starting_point_y + (dimensions.side_wing_width + joinery.clearance_between_paths),
        material_thickness,
        dimensions.depth,
        dimensions.side_wing_width,
        true,
        color,
        joinery,
    );
    document.append(path);
    assert(final(document)@.paths =~= old(document)@.paths + side_wing_pair(
        *joinery,
        *dimensions,
        starting_point_x as int,
        starting_point_y as int,
        material_thickness as int,
        color@,
    ));
}

/// From the top of one wing pair to the top of the next.
pub open spec fn wing_pitch(joinery: Joinery, dimensions: ContainerDimensions, t: int) -> int {
    pair_height(joinery, dimensions.side_wing_width as int, t) + joinery.clearance_between_paths
}

/// The wing pairs of the first `count` box positions, stacked from the top
/// of the sheet at abscissa 0, one pitch apart.
pub open spec fn wing_band(
    joinery: Joinery,
    dimensions: ContainerDimensions,
    t: int,
    color: Seq<char>,
    count: nat,
) -> Seq<PathView>
    decreases count,
{
    if count == 0 {
        Seq::empty()
    } else {
        wing_band(joinery, dimensions, t, color, (count - 1) as nat) + side_wing_pair(
            joinery,
            dimensions,
            0,
            wing_pitch(joinery, dimensions, t) * (count - 1),
            t,
            color,
        )
    }
}

/// Draws the wing pairs of `amount_of_boxes` box positions from the top of
/// the sheet at abscissa 0, each one pitch below the one before.
pub fn generate_side_wing_band(
    document: &mut Document,
    dimensions: &ContainerDimensions,
    amount_of_boxes: usize,
    material_thickness: usize,
    color: &str,
    joinery: &Joinery,
)
    requires
        1 <= amount_of_boxes ==> joinery.slot_group_length() <= dimensions.depth,
        wing_pitch(*joinery, *dimensions, material_thickness as int) <= usize::MAX,
        1 <= amount_of_boxes ==> wing_pitch(*joinery, *dimensions, material_thickness as int) * (
        amount_of_boxes - 1) + pair_height(
            *joinery,
            dimensions.side_wing_width as int,
            material_thickness as int,
        ) <= usize::MAX,
    ensures
        final(document)@ == old(document)@.with(
            wing_band(
                *joinery,
                *dimensions,
                material_thickness as int,
                color@,
                amount_of_boxes as nat,
            ),
        ),
{
    let ghost before = document@;
    let ghost t = material_thickness as int;
    let ghost pitch = wing_pitch(*joinery, *dimensions, t);
    let ghost pair = pair_height(*joinery, dimensions.side_wing_width as int, t);
    let starting_point_x: usize = 0;
    let starting_point_y: usize = 0;
    let height_of_two_side_wings = height_of_two_side_wings(
        dimensions.side_wing_width,
        material_thickness,
        joinery,
    );
    let height_of_two_side_wings_with_clearance = height_of_two_side_wings
        + joinery.clearance_between_paths;
    assert(document@.paths =~= before.paths + Seq::<PathView>::empty());

    for i in 0..amount_of_boxes
        invariant
            1 <= amount_of_boxes ==> joinery.slot_group_length() <= dimensions.depth,
            pitch == wing_pitch(*joinery, *dimensions, t),
            pair == pair_height(*joinery, dimensions.side_wing_width as int, t),
            t == material_thickness,
            pitch == height_of_two_side_wings_with_clearance,
            1 <= amount_of_boxes ==> pitch * (amount_of_boxes - 1) + pair <= usize::MAX,
            starting_point_x == 0,
            starting_point_y == 0,
            document@.width == before.width,
            document@.height == before.height,
            document@.paths == before.paths + wing_band(
                *joinery,
                *dimensions,
                t,
                color@,
                i as nat,
            ),
    {
        proof {
            lemma_multiples_grow(pitch, i as int, amount_of_boxes - 1);
        }
        generate_side_wing_pair(
            document,
            dimensions,
            starting_point_x,
            starting_point_y + height_of_two_side_wings_with_clearance * i,
            material_thickness,
            color,
            joinery,
        );
        assert(document@.paths =~= before.paths + wing_band(
            *joinery,
            *dimensions,
            t,
            color@,
            (i + 1) as nat,
        ));
    }
}

/// A band of `count` box positions holds two paths for each.
pub proof fn lemma_wing_band_len(
    joinery: Joinery,
    dimensions: ContainerDimensions,
    t: int,
    color: Seq<char>,
    count: nat,
)
    ensures
        wing_band(joinery, dimensions, t, color, count).len() == 2 * count,
    decreases count,
{
    if count > 0 {
        lemma_wing_band_len(joinery, dimensions, t, color, (count - 1) as nat);
    }
}

/// Both wing profiles are closed polygons of horizontal and vertical edges.
pub proof fn lemma_side_wing_closed_rectilinear(
    joinery: Joinery,
    x: int,
    y: int,
    t: int,
    depth: int,
    wing_width: int,
)
    ensures
        closed_rectilinear(side_wing_outline(joinery, x, y, t, depth, wing_width)),
        closed_rectilinear(side_wing_inverted_outline(joinery, x, y, t, depth, wing_width)),
{
}

/// Every path of a wing band is a closed polygon of horizontal and vertical
/// edges.
pub proof fn lemma_wing_band_closed_rectilinear(
    joinery: Joinery,
    dimensions: ContainerDimensions,
    t: int,
    color: Seq<char>,
    count: nat,
)
    ensures
        all_closed_rectilinear(wing_band(joinery, dimensions, t, color, count)),
    decreases count,
{
    if count > 0 {
        lemma_wing_band_closed_rectilinear(joinery, dimensions, t, color, (count - 1) as nat);
        let y = wing_pitch(joinery, dimensions, t) * (count - 1);
        let depth = dimensions.depth as int;
        let wing_width = dimensions.side_wing_width as int;
        lemma_side_wing_closed_rectilinear(joinery, 0, y, t, depth, wing_width);
        lemma_side_wing_closed_rectilinear(
            joinery,
            0,
            y + wing_width + joinery.clearance_between_paths,
            t,
            depth,
            wing_width,
        );
        lemma_all_closed_rectilinear_concat(
            wing_band(joinery, dimensions, t, color, (count - 1) as nat),
            side_wing_pair(joinery, dimensions, 0, y, t, color),
        );
    }
}

/// The rectangle a wing pair with its origin at `(x, y)` is drawn in: as
/// long as the container is deep, and one pair height high.
pub open spec fn side_wing_pair_frame(
    joinery: Joinery,
    dimensions: ContainerDimensions,
    x: int,
    y: int,
    t: int,
) -> Frame {
    Frame {
        left: x,
        top: y,
        right: x + dimensions.depth,
        bottom: y + pair_height(joinery, dimensions.side_wing_width as int, t),
    }
}

/// A wing pair stays inside its rectangle.
pub proof fn lemma_side_wing_pair_frame(
    joinery: Joinery,
    dimensions: ContainerDimensions,
    x: int,
    y: int,
    t: int,
    color: Seq<char>,
)
    requires
        0 <= t,
        joinery.slot_group_length() <= dimensions.depth,
    ensures
        side_wing_pair_frame(joinery, dimensions, x, y, t).holds_all(
            side_wing_pair(joinery, dimensions, x, y, t, color),
        ),
{
    let frame = side_wing_pair_frame(joinery, dimensions, x, y, t);
    let depth = dimensions.depth as int;
    let wing_width = dimensions.side_wing_width as int;
    let pair = side_wing_pair(joinery, dimensions, x, y, t, color);
    assert(frame.holds_outline(side_wing_outline(joinery, x, y, t, depth, wing_width)));
    assert(frame.holds_outline(
        side_wing_inverted_outline(
            joinery,
            x,
            y + wing_width + joinery.clearance_between_paths,
            t,
            depth,
            wing_width,
        ),
    ));
    assert forall|i: int| 0 <= i < pair.len() implies frame.holds_outline(
        #[trigger] pair[i].vertices,
    ) by {
        if i == 0 {
        } else {
            assert(i == 1);
        }
    }
}

/// A band of `count` wing pairs stays inside the rectangle that starts at the
/// corner of the sheet, is as long as the container is deep, and is `count`
/// pitches high.
pub proof fn lemma_wing_band_frame(
    joinery: Joinery,
    dimensions: ContainerDimensions,
    t: int,
    color: Seq<char>,
    count: nat,
)
    requires
        0 <= t,
        joinery.slot_group_length() <= dimensions.depth,
    ensures
        (Frame {
            left: 0,
            top: 0,
            right: dimensions.depth as int,
            bottom: wing_pitch(joinery, dimensions, t) * count,
        }).holds_all(wing_band(joinery, dimensions, t, color, count)),
    decreases count,
{
    let pitch = wing_pitch(joinery, dimensions, t);
    if count > 0 {
        lemma_wing_band_frame(joinery, dimensions, t, color, (count - 1) as nat);
        lemma_side_wing_pair_frame(joinery, dimensions, 0, pitch * (count - 1), t, color);
        lemma_multiples_grow(pitch, count - 1, count as int);
        lemma_frames_join(
            wing_band(joinery, dimensions, t, color, (count - 1) as nat),
            Frame { left: 0, top: 0, right: dimensions.depth as int, bottom: pitch * (count - 1) },
            side_wing_pair(joinery, dimensions, 0, pitch * (count - 1), t, color),
            side_wing_pair_frame(joinery, dimensions, 0, pitch * (count - 1), t),
            Frame { left: 0, top: 0, right: dimensions.depth as int, bottom: pitch * count },
        );
    }
}

/// The joinery leaves room on a depth of `depth` for a wing pair that does
/// not cross itself: every length is positive, and the slots that one
/// profile has tabs for lie apart.
pub open spec fn wings_have_room(joinery: Joinery, t: int, depth: int, wing_width: int) -> bool {
    &&& 0 < t
    &&& 0 < wing_width
    &&& 0 < joinery.side_wing_slot_from_front
    &&& 0 < joinery.side_wing_slot_width
    &&& 0 < joinery.side_wing_slot_spacing
    &&& joinery.slot_zone_end(depth, 0) < joinery.slot_zone_start(depth, 2)
    &&& joinery.slot_zone_end(depth, 1) < joinery.slot_zone_start(depth, 3)
}

/// With that room, neither wing profile crosses or touches itself.
pub proof fn lemma_side_wing_simple(
    joinery: Joinery,
    x: int,
    y: int,
    t: int,
    depth: int,
    wing_width: int,
)
    requires
        wings_have_room(joinery, t, depth, wing_width),
    ensures
        simple(side_wing_outline(joinery, x, y, t, depth, wing_width)),
        simple(side_wing_inverted_outline(joinery, x, y, t, depth, wing_width)),
{
}

/// With room on the depth, no path of a wing band crosses or touches itself.
pub proof fn lemma_wing_band_simple(
    joinery: Joinery,
    dimensions: ContainerDimensions,
    t: int,
    color: Seq<char>,
    count: nat,
)
    requires
        wings_have_room(joinery, t, dimensions.depth as int, dimensions.side_wing_width as int),
    ensures
        all_simple(wing_band(joinery, dimensions, t, color, count)),
    decreases count,
{
    if count > 0 {
        lemma_wing_band_simple(joinery, dimensions, t, color, (count - 1) as nat);
        let y = wing_pitch(joinery, dimensions, t) * (count - 1);
        let depth = dimensions.depth as int;
        let wing_width = dimensions.side_wing_width as int;
        lemma_side_wing_simple(joinery, 0, y, t, depth, wing_width);
        lemma_side_wing_simple(
            joinery,
            0,
            y + wing_width + joinery.clearance_between_paths,
            t,
            depth,
            wing_width,
        );
        lemma_all_simple_concat(
            wing_band(joinery, dimensions, t, color, (count - 1) as nat),
            side_wing_pair(joinery, dimensions, 0, y, t, color),
        );
    }
}

} // verus!
