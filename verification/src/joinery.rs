//! The lengths that every panel shares. The side wings, the covers and the
//! side panels only interlock when all of them are cut from one set.

use vstd::prelude::*;

verus! {

/// How many micrometres make up one millimetre.
pub const MICROMETRES_PER_MILLIMETRE: usize = 1000;

/// The shared joinery lengths, all in one unit of the caller's choosing.
#[derive(Clone, Copy, Debug, PartialEq, Eq, Structural)]
pub struct Joinery {
    /// From the front edge to the first side wing slot.
    pub side_wing_slot_from_front: usize,
    /// Width of each side wing slot, and of the tab that enters it.
    pub side_wing_slot_width: usize,
    /// Gap between the two slots of one group.
    pub side_wing_slot_spacing: usize,
    /// Gap left between neighbouring paths on the sheet.
    pub clearance_between_paths: usize,
    /// From the front edge to the first side tap.
    pub side_tap_from_front: usize,
    /// Width of each side tap, and of the notch that receives it.
    pub side_tap_width: usize,
    /// Play added to the container width inside a column.
    pub clearance_for_container_width: usize,
}

impl Joinery {
    /// The standard lengths in whole millimetres.
    pub open spec fn in_millimetres() -> Joinery {
        Joinery {
            side_wing_slot_from_front: 20,
            side_wing_slot_width: 20,
            side_wing_slot_spacing: 15,
            clearance_between_paths: 3,
            side_tap_from_front: 30,
            side_tap_width: 30,
            clearance_for_container_width: 4,
        }
    }

    /// The standard lengths in micrometres.
    pub open spec fn in_micrometres() -> Joinery {
        Joinery {
            side_wing_slot_from_front: 20_000,
            side_wing_slot_width: 20_000,
            side_wing_slot_spacing: 15_000,
            clearance_between_paths: 3_000,
            side_tap_from_front: 30_000,
            side_tap_width: 30_000,
            clearance_for_container_width: 4_000,
        }
    }

    /// The standard lengths in whole millimetres.
    pub fn millimetres() -> (joinery: Joinery)
        ensures
            joinery == Joinery::in_millimetres(),
    {
        Joinery {
            side_wing_slot_from_front: 20,
            side_wing_slot_width: 20,
            side_wing_slot_spacing: 15,
            clearance_between_paths: 3,
            side_tap_from_front: 30,
            side_tap_width: 30,
            clearance_for_container_width: 4,
        }
    }

    /// The standard lengths in micrometres.
    pub fn micrometres() -> (joinery: Joinery)
        ensures
            joinery == Joinery::in_micrometres(),
    {
        Joinery {
            side_wing_slot_from_front: 20_000,
            side_wing_slot_width: 20_000,
            side_wing_slot_spacing: 15_000,
            clearance_between_paths: 3_000,
            side_tap_from_front: 30_000,
            side_tap_width: 30_000,
            clearance_for_container_width: 4_000,
        }
    }

    /// Length taken at each end of the depth by the two slots of a group:
    /// the offset of the first slot, both slots, and the gap between them.
    pub open spec fn slot_group_length(self) -> int {
        self.side_wing_slot_from_front + self.side_wing_slot_width + self.side_wing_slot_spacing
            + self.side_wing_slot_width
    }

    /// Length taken at each end of the depth by a side tap and its offset.
    pub open spec fn side_tap_reach(self) -> int {
        self.side_tap_from_front + self.side_tap_width
    }

    /// Where slot zone `zone` (0 to 3, front to back) begins along a depth of
    /// `depth`. Zones 0 and 1 are measured from the front; zones 3 and 2 are
    /// their mirror images, measured from the back.
    pub open spec fn slot_zone_start(self, depth: int, zone: int) -> int {
        if zone == 0 {
            self.side_wing_slot_from_front as int
        } else if zone == 1 {
            self.side_wing_slot_from_front + self.side_wing_slot_width + self.side_wing_slot_spacing
        } else if zone == 2 {
            depth - self.slot_group_length()
        } else {
            depth - (self.side_wing_slot_from_front + self.side_wing_slot_width)
        }
    }

    /// Where slot zone `zone` ends: one slot width after its start.
    pub open spec fn slot_zone_end(self, depth: int, zone: int) -> int {
        self.slot_zone_start(depth, zone) + self.side_wing_slot_width
    }

    /// Where side tap `tap` (0 at the front, 1 at the back) begins along a
    /// depth of `depth`; the back tap mirrors the front one.
    pub open spec fn side_tap_start(self, depth: int, tap: int) -> int {
        if tap == 0 {
            self.side_tap_from_front as int
        } else {
            depth - self.side_tap_reach()
        }
    }

    /// Where side tap `tap` ends: one tap width after its start.
    pub open spec fn side_tap_end(self, depth: int, tap: int) -> int {
        self.side_tap_start(depth, tap) + self.side_tap_width
    }

    /// A depth of `depth` has room for the side taps and, where there are
    /// `rows` rows of containers to brace, for the slot groups.
    pub open spec fn fits_depth(self, depth: int, rows: int) -> bool {
        &&& self.side_tap_reach() <= depth
        &&& 1 <= rows ==> self.slot_group_length() <= depth
    }
}

/// Offset of the second side wing slot from the front edge.
pub fn second_side_wing_tap_position_from_front(joinery: &Joinery) -> (offset: usize)
    requires
        joinery.slot_zone_start(0, 1) <= usize::MAX,
    ensures
        offset == joinery.slot_zone_start(0, 1),
{
    joinery.side_wing_slot_from_front + joinery.side_wing_slot_width
        + joinery.side_wing_slot_spacing
}

/// Offset of the third side wing slot from the front edge of a box that is
/// `box_depth` deep.
pub fn third_side_wing_tap_position_from_front(box_depth: usize, joinery: &Joinery) -> (offset:
    usize)
    requires
        joinery.slot_group_length() <= box_depth,
    ensures
        offset == joinery.slot_zone_start(box_depth as int, 2),
{
    box_depth - (joinery.side_wing_slot_from_front + joinery.side_wing_slot_width
        + joinery.side_wing_slot_spacing + joinery.side_wing_slot_width)
}

/// Offset of the fourth side wing slot from the front edge of a box that is
/// `box_depth` deep.
pub fn fourth_side_wing_tap_position_from_front(box_depth: usize, joinery: &Joinery) -> (offset:
    usize)
    requires
        joinery.side_wing_slot_from_front + joinery.side_wing_slot_width <= box_depth,
    ensures
        offset == joinery.slot_zone_start(box_depth as int, 3),
{
    box_depth - (joinery.side_wing_slot_from_front + joinery.side_wing_slot_width)
}

/// The two back zones mirror the two front zones about the middle of the
/// depth.
pub proof fn lemma_slot_zones_mirror(joinery: Joinery, depth: int, zone: int)
    requires
        0 <= zone < 4,
    ensures
        joinery.slot_zone_start(depth, 3 - zone) == depth - joinery.slot_zone_end(depth, zone),
        joinery.slot_zone_end(depth, 3 - zone) == depth - joinery.slot_zone_start(depth, zone),
{
}

/// When the depth has room for both slot groups without overlap, the four
/// zones lie inside it in order, front to back.
pub proof fn lemma_slot_zones_ordered(joinery: Joinery, depth: int)
    requires
        2 * joinery.slot_group_length() <= depth,
    ensures
        0 <= joinery.slot_zone_start(depth, 0),
        joinery.slot_zone_end(depth, 0) <= joinery.slot_zone_start(depth, 1),
        joinery.slot_zone_end(depth, 1) <= joinery.slot_zone_start(depth, 2),
        joinery.slot_zone_end(depth, 2) <= joinery.slot_zone_start(depth, 3),
        joinery.slot_zone_end(depth, 3) <= depth,
{
}

impl Joinery {
    /// A depth of `depth` leaves the two side taps apart, each of a positive
    /// width and a positive distance from its end.
    pub open spec fn side_taps_have_room(self, depth: int) -> bool {
        &&& 0 < self.side_tap_from_front
        &&& 0 < self.side_tap_width
        &&& self.side_tap_end(depth, 0) < self.side_tap_start(depth, 1)
    }
}

} // verus!
