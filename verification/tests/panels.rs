use container_rack_lib::cover::{
    generate_cover_path, generate_side_tap_path, generate_top_and_bottom_pieces,
    generate_top_path, top_width,
};
use container_rack_lib::generator;
use container_rack_lib::joinery::{
    fourth_side_wing_tap_position_from_front, second_side_wing_tap_position_from_front,
    third_side_wing_tap_position_from_front, MICROMETRES_PER_MILLIMETRE,
};
use container_rack_lib::layout::{assemble, assembled_dimensions, can_assemble};
use container_rack_lib::side_panel::{
    generate_side_panel_outline_path, generate_side_panel_wing_holes, generate_side_panels,
};
use container_rack_lib::wing::{
    generate_side_wing, generate_side_wing_band, generate_side_wing_inverted_path,
    generate_side_wing_pair, generate_side_wing_path, height_of_two_side_wings,
};
use container_rack_lib::{
    AssembledDimensions, ContainerDimensions, Document, Joinery, Move, OutlineBuilder, Point,
};

fn points(coordinates: &[(usize, usize)]) -> Vec<Point> {
    coordinates.iter().map(|&(x, y)| Point { x, y }).collect()
}

fn dimensions() -> ContainerDimensions {
    ContainerDimensions {
        width: 100,
        depth: 200,
        height: 90,
        side_wing_from_box_top: 10,
        side_wing_width: 20,
    }
}

#[test]
fn standard_joinery_in_both_units() {
    let mm = Joinery::millimetres();
    assert_eq!(mm.side_wing_slot_from_front, 20);
    assert_eq!(mm.side_wing_slot_width, 20);
    assert_eq!(mm.side_wing_slot_spacing, 15);
    assert_eq!(mm.clearance_between_paths, 3);
    assert_eq!(mm.side_tap_from_front, 30);
    assert_eq!(mm.side_tap_width, 30);
    assert_eq!(mm.clearance_for_container_width, 4);
    let um = Joinery::micrometres();
    assert_eq!(MICROMETRES_PER_MILLIMETRE, 1000);
    assert_eq!(um.side_wing_slot_from_front, 20_000);
    assert_eq!(um.side_wing_slot_width, 20_000);
    assert_eq!(um.side_wing_slot_spacing, 15_000);
    assert_eq!(um.clearance_between_paths, 3_000);
    assert_eq!(um.side_tap_from_front, 30_000);
    assert_eq!(um.side_tap_width, 30_000);
    assert_eq!(um.clearance_for_container_width, 4_000);
}

#[test]
fn slot_positions_from_the_front() {
    let joinery = Joinery::millimetres();
    assert_eq!(second_side_wing_tap_position_from_front(&joinery), 55);
    assert_eq!(third_side_wing_tap_position_from_front(210, &joinery), 135);
    assert_eq!(fourth_side_wing_tap_position_from_front(210, &joinery), 170);
    assert_eq!(third_side_wing_tap_position_from_front(75, &joinery), 0);
    assert_eq!(fourth_side_wing_tap_position_from_front(40, &joinery), 0);
}

#[test]
fn builder_walks_one_axis_at_a_time() {
    let builder = OutlineBuilder::move_to(Point { x: 5, y: 7 })
        .vertical_line_to(9)
        .horizontal_line_to(1)
        .vertical_line_to(7);
    let outline = builder.close();
    assert_eq!(outline.vertices(), &points(&[(5, 7), (5, 9), (1, 9), (1, 7)]));
    assert_eq!(
        outline.moves(),
        vec![Move::Vertical(9), Move::Horizontal(1), Move::Vertical(7)]
    );
    let lone = OutlineBuilder::move_to(Point { x: 3, y: 4 }).close();
    assert_eq!(lone.vertices(), &points(&[(3, 4)]));
    assert!(lone.moves().is_empty());
    assert_eq!(lone.clone(), lone);
}

#[test]
fn a_step_that_stays_in_place_counts_as_vertical() {
    let outline = OutlineBuilder::move_to(Point { x: 3, y: 4 }).horizontal_line_to(3).close();
    assert_eq!(outline.moves(), vec![Move::Vertical(4)]);
}

#[test]
fn two_side_wings_take_both_strips_the_tabs_and_a_clearance() {
    assert_eq!(height_of_two_side_wings(20, 5, &Joinery::millimetres()), 48);
    assert_eq!(height_of_two_side_wings(8, 3, &Joinery::millimetres()), 22);
    assert_eq!(height_of_two_side_wings(20_000, 500, &Joinery::micrometres()), 43_500);
}

#[test]
fn wing_profile_starts_at_its_origin() {
    let joinery = Joinery::millimetres();
    let outline = generate_side_wing_path(100, 50, 5, 200, 20, &joinery);
    assert_eq!(
        outline.vertices(),
        &points(&[
            (100, 50),
            (100, 70),
            (120, 70),
            (120, 75),
            (140, 75),
            (140, 70),
            (225, 70),
            (225, 75),
            (245, 75),
            (245, 70),
            (300, 70),
            (300, 50),
        ])
    );
}

#[test]
fn inverted_wing_profile_starts_at_its_origin() {
    let joinery = Joinery::millimetres();
    let outline = generate_side_wing_inverted_path(100, 50, 5, 200, 20, &joinery);
    assert_eq!(
        outline.vertices(),
        &points(&[
            (100, 55),
            (155, 55),
            (155, 50),
            (175, 50),
            (175, 55),
            (260, 55),
            (260, 50),
            (280, 50),
            (280, 55),
            (300, 55),
            (300, 75),
            (100, 75),
        ])
    );
}

#[test]
fn side_wing_picks_the_profile_and_takes_the_colour() {
    let joinery = Joinery::millimetres();
    let wing = generate_side_wing(0, 0, 5, 200, 20, false, "red", &joinery);
    assert_eq!(wing.outline, generate_side_wing_path(0, 0, 5, 200, 20, &joinery));
    assert_eq!(wing.stroke, "red");
    let inverted = generate_side_wing(0, 0, 5, 200, 20, true, "green", &joinery);
    assert_eq!(inverted.outline, generate_side_wing_inverted_path(0, 0, 5, 200, 20, &joinery));
    assert_eq!(inverted.stroke, "green");
}

#[test]
fn wing_pair_puts_the_inverted_wing_one_width_and_one_clearance_lower() {
    let joinery = Joinery::millimetres();
    let mut document = Document::new(1000, 1000);
    generate_side_wing_pair(&mut document, &dimensions(), 10, 40, 5, "red", &joinery);
    assert_eq!(document.paths.len(), 2);
    assert_eq!(document.paths[0], generate_side_wing(10, 40, 5, 200, 20, false, "red", &joinery));
    assert_eq!(document.paths[1], generate_side_wing(10, 63, 5, 200, 20, true, "red", &joinery));
    assert_eq!((document.width, document.height), (1000, 1000));
}

#[test]
fn wing_band_stacks_the_pairs_one_pitch_apart() {
    let joinery = Joinery::millimetres();
    let mut document = Document::new(1000, 1000);
    generate_side_wing_band(&mut document, &dimensions(), 3, 5, "red", &joinery);
    assert_eq!(document.paths.len(), 6);
    let tops: Vec<usize> =
        document.paths.iter().map(|path| path.outline.vertices()[0].y).collect();
    assert_eq!(tops, vec![0, 23 + 5, 51, 51 + 28, 102, 102 + 28]);
    let mut empty = Document::new(1, 1);
    generate_side_wing_band(&mut empty, &dimensions(), 0, 5, "red", &joinery);
    assert!(empty.paths.is_empty());
}

#[test]
fn cover_is_every_column_and_a_thickness_at_each_end() {
    assert_eq!(top_width(109, 3, 5), 337);
    assert_eq!(top_width(87_000, 1, 3_000), 93_000);
    assert_eq!(top_width(0, 7, 2), 4);
}

#[test]
fn cover_outline_starts_at_its_origin() {
    let joinery = Joinery::millimetres();
    let outline = generate_top_path(&dimensions(), 10, 20, 2, 109, 5, &joinery);
    assert_eq!(
        outline.vertices(),
        &points(&[
            (10, 20),
            (10, 50),
            (15, 50),
            (15, 80),
            (10, 80),
            (10, 160),
            (15, 160),
            (15, 190),
            (10, 190),
            (10, 220),
            (238, 220),
            (238, 190),
            (233, 190),
            (233, 160),
            (238, 160),
            (238, 80),
            (233, 80),
            (233, 50),
            (238, 50),
            (238, 20),
        ])
    );
}

#[test]
fn side_tap_slot_is_one_thickness_wide_and_one_tap_long() {
    let path = generate_side_tap_path(7, 9, 5, "red", &Joinery::millimetres());
    assert_eq!(path.outline.vertices(), &points(&[(7, 9), (7, 39), (12, 39), (12, 9)]));
    assert_eq!(path.stroke, "red");
}

#[test]
fn cover_has_a_slot_pair_for_every_divider() {
    let joinery = Joinery::millimetres();
    let mut document = Document::new(1000, 1000);
    generate_cover_path(&mut document, &dimensions(), 10, 20, 3, 109, 5, "red", "blue", &joinery);
    assert_eq!(document.paths.len(), 5);
    assert_eq!(document.paths[0].stroke, "blue");
    assert_eq!(document.paths[0].outline.vertices()[10], Point { x: 10 + 337, y: 220 });
    assert_eq!(document.paths[1], generate_side_tap_path(119, 50, 5, "red", &joinery));
    assert_eq!(document.paths[2], generate_side_tap_path(119, 160, 5, "red", &joinery));
    assert_eq!(document.paths[3], generate_side_tap_path(228, 50, 5, "red", &joinery));
    assert_eq!(document.paths[4], generate_side_tap_path(228, 160, 5, "red", &joinery));
}

#[test]
fn bottom_cover_lies_one_depth_and_one_clearance_below_the_top_cover() {
    let joinery = Joinery::millimetres();
    let mut both = Document::new(1000, 1000);
    generate_top_and_bottom_pieces(&mut both, &dimensions(), 10, 2, 109, 5, "red", "blue", &joinery);
    let mut apart = Document::new(1000, 1000);
    generate_cover_path(&mut apart, &dimensions(), 10, 0, 2, 109, 5, "red", "blue", &joinery);
    generate_cover_path(&mut apart, &dimensions(), 10, 203, 2, 109, 5, "red", "blue", &joinery);
    assert_eq!(both.paths.len(), 6);
    assert_eq!(both, apart);
}

#[test]
fn wing_slot_is_one_thickness_wide_and_one_slot_long() {
    let path = generate_side_panel_wing_holes(7, 9, 5, "red", &Joinery::millimetres());
    assert_eq!(path.outline.vertices(), &points(&[(7, 9), (7, 29), (12, 29), (12, 9)]));
    assert_eq!(path.stroke, "red");
}

#[test]
fn side_panel_outline_starts_one_thickness_in() {
    let joinery = Joinery::millimetres();
    let path = generate_side_panel_outline_path(10, 20, &dimensions(), 2, 5, "blue", &joinery);
    assert_eq!(
        path.outline.vertices(),
        &points(&[
            (15, 20),
            (15, 50),
            (10, 50),
            (10, 80),
            (15, 80),
            (15, 160),
            (10, 160),
            (10, 190),
            (15, 190),
            (15, 220),
            (195, 220),
            (195, 190),
            (200, 190),
            (200, 160),
            (195, 160),
            (195, 80),
            (200, 80),
            (200, 50),
            (195, 50),
            (195, 20),
        ])
    );
    assert_eq!(path.stroke, "blue");
}

#[test]
fn side_panels_carry_four_wing_slots_per_row() {
    let joinery = Joinery::millimetres();
    let mut document = Document::new(1000, 1000);
    generate_side_panels(&mut document, 10, &dimensions(), 2, 1, 5, "red", "blue", &joinery);
    assert_eq!(document.paths.len(), 2 * 9);
    assert_eq!(
        document.paths[0],
        generate_side_panel_outline_path(10, 0, &dimensions(), 2, 5, "blue", &joinery)
    );
    let slots: Vec<Point> =
        document.paths[1..9].iter().map(|path| path.outline.vertices()[0]).collect();
    assert_eq!(
        slots,
        points(&[
            (25, 20),
            (25, 55),
            (25, 125),
            (25, 160),
            (115, 20),
            (115, 55),
            (115, 125),
            (115, 160),
        ])
    );
    assert_eq!(
        document.paths[9],
        generate_side_panel_outline_path(10, 203, &dimensions(), 2, 5, "blue", &joinery)
    );
    assert_eq!(document.paths[17].outline.vertices()[0], Point { x: 115, y: 363 });
    assert!(document.paths[1..9].iter().all(|path| path.stroke == "red"));
}

#[test]
fn wing_slots_lie_where_the_wing_tabs_are() {
    let joinery = Joinery::millimetres();
    let wing = generate_side_wing_path(0, 0, 5, 200, 20, &joinery);
    let inverted = generate_side_wing_inverted_path(0, 0, 5, 200, 20, &joinery);
    let mut document = Document::new(1000, 1000);
    generate_side_panels(&mut document, 0, &dimensions(), 1, 0, 5, "red", "blue", &joinery);
    let tab_starts = [
        wing.vertices()[2].x,
        inverted.vertices()[1].x,
        wing.vertices()[6].x,
        inverted.vertices()[5].x,
    ];
    let tab_ends = [
        wing.vertices()[5].x,
        inverted.vertices()[4].x,
        wing.vertices()[9].x,
        inverted.vertices()[8].x,
    ];
    for zone in 0..4 {
        let slot = document.paths[1 + zone].outline.vertices();
        assert_eq!(slot[0].y, tab_starts[zone]);
        assert_eq!(slot[1].y, tab_ends[zone]);
        assert_eq!(slot[3].x - slot[0].x, 5);
    }
}

#[test]
fn envelope_in_whole_millimetres() {
    let joinery = Joinery::millimetres();
    let envelope = assembled_dimensions(2, 3, 5, &dimensions(), &joinery);
    assert_eq!(envelope, AssembledDimensions { width: 332, height: 190, depth: 200 });
}

#[test]
fn the_engine_works_in_any_unit() {
    let joinery = Joinery::millimetres();
    assert!(can_assemble(2, 3, 5, &dimensions(), &joinery));
    let generated = assemble(2, 3, 5, &dimensions(), "red", "blue", &joinery);
    assert_eq!(
        generated.assembled_dimensions,
        AssembledDimensions { width: 332, height: 190, depth: 200 }
    );
    assert_eq!(generated.document.width, 200 + 9 + 337 + 180 + 10);
    assert_eq!(generated.document.height, 4 * 203);
    assert_eq!(generated.document.paths.len(), 12 + 10 + 36);
    assert!(!can_assemble(2, 0, 5, &dimensions(), &joinery));
    assert!(!can_assemble(2, usize::MAX, 5, &dimensions(), &joinery));
    let shallow = ContainerDimensions { depth: 74, ..dimensions() };
    assert!(!can_assemble(2, 3, 5, &shallow, &joinery));
}

#[test]
fn wing_sheet_for_the_box() {
    let sheet = generator::generate_svg(1, 2, 3);
    assert_eq!(sheet.width, 210);
    assert_eq!(sheet.height, 2 * 25);
    assert_eq!(sheet.paths.len(), 4);
    assert_eq!(
        sheet.paths[0].outline.vertices(),
        &points(&[
            (0, 0),
            (0, 8),
            (20, 8),
            (20, 11),
            (40, 11),
            (40, 8),
            (135, 8),
            (135, 11),
            (155, 11),
            (155, 8),
            (210, 8),
            (210, 0),
        ])
    );
    assert_eq!(
        sheet.paths[1].outline.vertices(),
        &points(&[
            (0, 14),
            (55, 14),
            (55, 11),
            (75, 11),
            (75, 14),
            (170, 14),
            (170, 11),
            (190, 11),
            (190, 14),
            (210, 14),
            (210, 22),
            (0, 22),
        ])
    );
    assert_eq!(sheet.paths[2].outline.vertices()[0], Point { x: 0, y: 25 });
    assert!(sheet.paths.iter().all(|path| path.stroke == "black"));
    assert!(generator::generate_svg(0, 5, 3).paths.is_empty());
}

#[test]
fn wing_pair_for_the_box() {
    let mut document = Document::new(210, 100);
    generator::generate_side_wings(&mut document, 0, 25, 3);
    let sheet = generator::generate_svg(1, 2, 3);
    assert_eq!(document.paths.len(), 2);
    assert_eq!(document.paths[0], sheet.paths[2]);
    assert_eq!(document.paths[1], sheet.paths[3]);
    assert_eq!(generator::the_box().depth, generator::BOX_DEPTH);
    assert_eq!(generator::the_box().side_wing_width, generator::SIDE_WING_WIDTH);
}

#[test]
fn inverted_wing_needs_room_for_one_slot_only() {
    let joinery = Joinery::millimetres();
    let outline = generate_side_wing_inverted_path(0, 0, 5, 40, 20, &joinery);
    assert_eq!(
        outline.vertices(),
        &points(&[
            (0, 5),
            (55, 5),
            (55, 0),
            (75, 0),
            (75, 5),
            (0, 5),
            (0, 0),
            (20, 0),
            (20, 5),
            (40, 5),
            (40, 25),
            (0, 25),
        ])
    );
    let path = generate_side_wing(0, 0, 5, 40, 20, true, "red", &joinery);
    assert_eq!(path.outline, outline);
}

#[test]
fn cover_outline_over_no_column_is_two_thicknesses_long() {
    let joinery = Joinery::millimetres();
    let outline = generate_top_path(&dimensions(), 0, 0, 0, 109, 5, &joinery);
    assert_eq!(outline.vertices()[10], Point { x: 10, y: 200 });
    assert_eq!(outline.vertices()[12], Point { x: 5, y: 170 });
}

#[test]
fn empty_wing_band_needs_no_room_on_the_depth() {
    let joinery = Joinery::millimetres();
    let shallow = ContainerDimensions { depth: 10, ..dimensions() };
    let mut document = Document::new(1, 1);
    generate_side_wing_band(&mut document, &shallow, 0, 5, "red", &joinery);
    assert!(document.paths.is_empty());
}
