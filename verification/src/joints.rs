//! Why the panels interlock: every tab is cut to the place and the size of
//! the slot or notch that receives it.

use vstd::prelude::*;
use crate::cover::{cover_outline, divider_slot_pair};
use crate::joinery::Joinery;
use crate::side_panel::{side_panel_outline, wing_slots};
use crate::wing::{side_wing_inverted_outline, side_wing_outline};

verus! {

/// The four corners of the tab over slot zone `zone` on a wing pair, both
/// profiles taken at the origin `(x, y)`: where the tab leaves the strip, its
/// two tips, and where it returns. The wing carries the tabs of zones 0 and
/// 2, the inverted wing those of zones 1 and 3.
pub open spec fn wing_tab(
    joinery: Joinery,
    x: int,
    y: int,
    t: int,
    depth: int,
    wing_width: int,
    zone: int,
) -> Seq<(int, int)> {
    let wing = side_wing_outline(joinery, x, y, t, depth, wing_width);
    let inverted = side_wing_inverted_outline(joinery, x, y, t, depth, wing_width);
    if zone == 0 {
        wing.subrange(2, 6)
    } else if zone == 1 {
        inverted.subrange(1, 5)
    } else if zone == 2 {
        wing.subrange(6, 10)
    } else {
        inverted.subrange(5, 9)
    }
}

/// The tab of every slot zone on a wing pair starts and ends at the same
/// distance from the front as the wing slot of that zone on a side panel, is
/// one slot width long like it, and reaches as deep as the slot is wide: one
/// material thickness.
pub proof fn lemma_wing_tabs_meet_wing_slots(
    joinery: Joinery,
    depth: int,
    t: int,
    wing_width: int,
    wing_x: int,
    wing_y: int,
    slot_x: int,
    panel_y: int,
    color: Seq<char>,
    zone: int,
)
    requires
        0 <= zone < 4,
        0 <= t,
    ensures
        ({
            let tab = wing_tab(joinery, wing_x, wing_y, t, depth, wing_width, zone);
            let slot = wing_slots(joinery, depth, slot_x, panel_y, t, color)[zone].vertices;
            &&& tab[0].0 - wing_x == slot[0].1 - panel_y == joinery.slot_zone_start(depth, zone)
            &&& tab[3].0 - wing_x == slot[1].1 - panel_y == joinery.slot_zone_end(depth, zone)
            &&& tab[3].0 - tab[0].0 == joinery.side_wing_slot_width
            &&& tab[1].0 == tab[0].0 && tab[2].0 == tab[3].0
            &&& vstd::math::abs(tab[1].1 - tab[0].1) == t
            &&& vstd::math::abs(tab[2].1 - tab[3].1) == t
            &&& slot[3].0 - slot[0].0 == t && slot[2].0 - slot[1].0 == t
        }),
{
}

/// Side tap `tap` of a side panel stands out at both ends of the panel by one
/// material thickness, between the same two distances from the front at
/// which the covers are notched one material thickness deep at both of their
/// ends, and at which the slots of every column divider, one material
/// thickness wide, are cut.
pub proof fn lemma_side_taps_meet_covers(
    joinery: Joinery,
    depth: int,
    t: int,
    panel_x: int,
    panel_y: int,
    inner: int,
    cover_x: int,
    cover_y: int,
    length: int,
    divider_x: int,
    color: Seq<char>,
    tap: int,
)
    requires
        0 <= tap < 2,
    ensures
        ({
            let panel = side_panel_outline(joinery, panel_x, panel_y, depth, inner, t);
            let cover = cover_outline(joinery, cover_x, cover_y, depth, length, t);
            let slot = divider_slot_pair(joinery, depth, divider_x, cover_y, t, color)[tap].vertices;
            let start = joinery.side_tap_start(depth, tap);
            let end = joinery.side_tap_end(depth, tap);
            let near = 4 * tap + 1;
            let far = 18 - 4 * tap;
            &&& end - start == joinery.side_tap_width
            &&& panel[near].1 - panel_y == start && panel[near + 3].1 - panel_y == end
            &&& panel[far].1 - panel_y == start && panel[far - 3].1 - panel_y == end
            &&& cover[near].1 - cover_y == start && cover[near + 3].1 - cover_y == end
            &&& cover[far].1 - cover_y == start && cover[far - 3].1 - cover_y == end
            &&& slot[0].1 - cover_y == start && slot[1].1 - cover_y == end
            &&& panel[near].0 - panel[near + 1].0 == t && panel[near + 3].0 - panel[near + 2].0
                == t
            &&& panel[far - 1].0 - panel[far].0 == t && panel[far - 2].0 - panel[far - 3].0 == t
            &&& cover[near + 1].0 - cover[near].0 == t && cover[near + 2].0 - cover[near + 3].0
                == t
            &&& cover[far].0 - cover[far - 1].0 == t && cover[far - 3].0 - cover[far - 2].0 == t
            &&& slot[3].0 - slot[0].0 == t && slot[2].0 - slot[1].0 == t
        }),
{
}

} // verus!
