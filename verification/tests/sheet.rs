use container_rack_lib::{
    can_generate, generate_svg, try_generate_svg, Container, ContainerDimensions, Move, Point,
};

fn container(width: usize, depth: usize, height: usize) -> Container {
    Container {
        vendor: "Test".to_string(),
        model: "Test".to_string(),
        description: "Test".to_string(),
        links: vec![],
        dimensions: ContainerDimensions {
            width,
            depth,
            height,
            side_wing_from_box_top: 10,
            side_wing_width: 20,
        },
    }
}

fn points(coordinates: &[(usize, usize)]) -> Vec<Point> {
    coordinates.iter().map(|&(x, y)| Point { x, y }).collect()
}

#[test]
fn canvas_is_as_wide_as_the_three_bands_and_as_high_as_the_tallest() {
    let sheet = generate_svg(1, 2, 3_000, &container(80, 120, 60), "black", "blue").document;
    assert_eq!(sheet.width, 120_000 + 9_000 + 180_000 + 60_000 + 6_000);
    assert_eq!(sheet.height, 3 * 123_000);
}

#[test]
fn canvas_height_follows_the_wing_band_when_it_is_tallest() {
    // 40 box positions of 46 mm each outgrow four side panels of 123 mm.
    let sheet = generate_svg(20, 2, 3_000, &container(80, 120, 60), "black", "blue").document;
    assert_eq!(sheet.height, 40 * 46_000);
}

#[test]
fn canvas_height_follows_the_covers_only_without_side_panels_to_outgrow_them() {
    // With one column the side panel band of two panels is 246 mm high, the
    // cover band 243 mm.
    let sheet = generate_svg(1, 1, 3_000, &container(80, 120, 60), "black", "blue").document;
    assert_eq!(sheet.height, 246_000);
}

#[test]
fn sheet_holds_every_panel_in_drawing_order() {
    let sheet = generate_svg(1, 2, 3_000, &container(80, 120, 60), "black", "blue").document;
    assert_eq!(sheet.paths.len(), 4 + 6 + 15);
    let first_vertex = |index: usize| sheet.paths[index].outline.vertices()[0];
    // wing pairs, one pitch of 49 mm apart
    assert_eq!(first_vertex(0), Point { x: 0, y: 0 });
    assert_eq!(first_vertex(1), Point { x: 0, y: 26_000 });
    assert_eq!(first_vertex(2), Point { x: 0, y: 49_000 });
    assert_eq!(first_vertex(3), Point { x: 0, y: 75_000 });
    // covers
    assert_eq!(first_vertex(4), Point { x: 123_000, y: 0 });
    assert_eq!(first_vertex(5), Point { x: 210_000, y: 30_000 });
    assert_eq!(first_vertex(6), Point { x: 210_000, y: 60_000 });
    assert_eq!(first_vertex(7), Point { x: 123_000, y: 123_000 });
    assert_eq!(first_vertex(8), Point { x: 210_000, y: 153_000 });
    assert_eq!(first_vertex(9), Point { x: 210_000, y: 183_000 });
    // side panels
    assert_eq!(first_vertex(10), Point { x: 309_000, y: 0 });
    assert_eq!(first_vertex(11), Point { x: 319_000, y: 20_000 });
    assert_eq!(first_vertex(12), Point { x: 319_000, y: 55_000 });
    assert_eq!(first_vertex(13), Point { x: 319_000, y: 45_000 });
    assert_eq!(first_vertex(14), Point { x: 319_000, y: 80_000 });
    assert_eq!(first_vertex(15), Point { x: 309_000, y: 123_000 });
    assert_eq!(first_vertex(20), Point { x: 309_000, y: 246_000 });
    assert_eq!(first_vertex(24), Point { x: 319_000, y: 326_000 });
}

#[test]
fn outlines_take_the_secondary_colour_and_slots_the_primary() {
    let sheet = generate_svg(1, 2, 3_000, &container(80, 120, 60), "black", "blue").document;
    let strokes: Vec<&str> = sheet.paths.iter().map(|path| path.stroke.as_str()).collect();
    assert_eq!(&strokes[0..4], ["blue"; 4]);
    assert_eq!(&strokes[4..7], ["blue", "black", "black"]);
    assert_eq!(&strokes[7..10], ["blue", "black", "black"]);
    assert_eq!(&strokes[10..15], ["blue", "black", "black", "black", "black"]);
}

#[test]
fn wing_profiles_carry_their_tabs_over_alternate_zones() {
    let sheet = generate_svg(1, 2, 3_000, &container(80, 120, 60), "black", "blue").document;
    assert_eq!(
        sheet.paths[0].outline.vertices(),
        &points(&[
            (0, 0),
            (0, 20_000),
            (20_000, 20_000),
            (20_000, 23_000),
            (40_000, 23_000),
            (40_000, 20_000),
            (45_000, 20_000),
            (45_000, 23_000),
            (65_000, 23_000),
            (65_000, 20_000),
            (120_000, 20_000),
            (120_000, 0),
        ])
    );
    assert_eq!(
        sheet.paths[1].outline.vertices(),
        &points(&[
            (0, 26_000),
            (55_000, 26_000),
            (55_000, 23_000),
            (75_000, 23_000),
            (75_000, 26_000),
            (80_000, 26_000),
            (80_000, 23_000),
            (100_000, 23_000),
            (100_000, 26_000),
            (120_000, 26_000),
            (120_000, 46_000),
            (0, 46_000),
        ])
    );
}

#[test]
fn cover_is_notched_at_both_ends() {
    let sheet = generate_svg(1, 2, 3_000, &container(80, 120, 60), "black", "blue").document;
    assert_eq!(
        sheet.paths[4].outline.vertices(),
        &points(&[
            (123_000, 0),
            (123_000, 30_000),
            (126_000, 30_000),
            (126_000, 60_000),
            (123_000, 60_000),
            (123_000, 60_000),
            (126_000, 60_000),
            (126_000, 90_000),
            (123_000, 90_000),
            (123_000, 120_000),
            (303_000, 120_000),
            (303_000, 90_000),
            (300_000, 90_000),
            (300_000, 60_000),
            (303_000, 60_000),
            (303_000, 60_000),
            (300_000, 60_000),
            (300_000, 30_000),
            (303_000, 30_000),
            (303_000, 0),
        ])
    );
    assert_eq!(
        sheet.paths[5].outline.vertices(),
        &points(&[(210_000, 30_000), (210_000, 60_000), (213_000, 60_000), (213_000, 30_000)])
    );
}

#[test]
fn side_panel_taps_stand_out_at_both_ends() {
    let sheet = generate_svg(1, 2, 3_000, &container(80, 120, 60), "black", "blue").document;
    assert_eq!(
        sheet.paths[10].outline.vertices(),
        &points(&[
            (309_000, 0),
            (309_000, 30_000),
            (306_000, 30_000),
            (306_000, 60_000),
            (309_000, 60_000),
            (309_000, 60_000),
            (306_000, 60_000),
            (306_000, 90_000),
            (309_000, 90_000),
            (309_000, 120_000),
            (369_000, 120_000),
            (369_000, 90_000),
            (372_000, 90_000),
            (372_000, 60_000),
            (369_000, 60_000),
            (369_000, 60_000),
            (372_000, 60_000),
            (372_000, 30_000),
            (369_000, 30_000),
            (369_000, 0),
        ])
    );
    assert_eq!(
        sheet.paths[11].outline.vertices(),
        &points(&[(319_000, 20_000), (319_000, 40_000), (322_000, 40_000), (322_000, 20_000)])
    );
}

#[test]
fn wing_slots_of_a_second_row_lie_one_container_height_further() {
    let sheet = generate_svg(2, 1, 3_000, &container(80, 120, 60), "black", "blue").document;
    // two wing pairs per row, two covers without slots, then the first panel
    let panel = 4 + 2;
    assert_eq!(sheet.paths[panel + 1].outline.vertices()[0], Point { x: 219_000 + 13_000, y: 20_000 });
    assert_eq!(sheet.paths[panel + 5].outline.vertices()[0], Point { x: 219_000 + 73_000, y: 20_000 });
}

#[test]
fn single_column_covers_have_no_divider_slots() {
    let sheet = generate_svg(1, 1, 3_000, &container(80, 120, 60), "black", "blue").document;
    assert_eq!(sheet.paths.len(), 2 + 2 + 2 * 5);
    assert_eq!(sheet.paths[2].outline.vertices().len(), 20);
    assert_eq!(sheet.paths[3].outline.vertices().len(), 20);
    assert_eq!(sheet.paths[4].outline.vertices().len(), 20);
}

#[test]
fn every_edge_is_horizontal_or_vertical() {
    let sheet = generate_svg(2, 3, 5_500, &container(100, 150, 90), "black", "blue").document;
    assert_eq!(sheet.paths.len(), 12 + 2 * 5 + 4 * 9);
    for path in &sheet.paths {
        let vertices = path.outline.vertices();
        assert!(vertices.len() >= 4);
        for i in 0..vertices.len() {
            let from = vertices[i];
            let to = vertices[(i + 1) % vertices.len()];
            assert!(from.x == to.x || from.y == to.y);
        }
    }
}

#[test]
fn moves_retrace_the_outline() {
    let sheet = generate_svg(1, 2, 3_000, &container(80, 120, 60), "black", "blue").document;
    assert_eq!(
        sheet.paths[11].outline.moves(),
        vec![Move::Vertical(40_000), Move::Horizontal(322_000), Move::Vertical(20_000)]
    );
    let wing = sheet.paths[1].outline.moves();
    assert_eq!(wing.len(), 11);
    assert_eq!(wing[0], Move::Horizontal(55_000));
    assert_eq!(wing[1], Move::Vertical(23_000));
    assert_eq!(wing[10], Move::Horizontal(0));
}

#[test]
fn generation_is_deterministic() {
    let container = container(100, 100, 100);
    let first = generate_svg(2, 3, 5_000, &container, "#000000", "#FF0000");
    let second = generate_svg(2, 3, 5_000, &container, "#000000", "#FF0000");
    assert_eq!(first.assembled_dimensions, second.assembled_dimensions);
    assert_eq!(first.document, second.document);
    assert_eq!(first, second.clone());
}

#[test]
fn assembled_depth_does_not_depend_on_grid_or_material() {
    let container = container(100, 130, 100);
    for (rows, columns, thickness) in [(1, 1, 500), (3, 2, 6_350), (7, 5, 18_000)] {
        let envelope = generate_svg(rows, columns, thickness, &container, "a", "b")
            .assembled_dimensions;
        assert_eq!(envelope.depth, 130_000);
        assert!(envelope.width > 0 && envelope.height > 0);
    }
}

#[test]
fn eighth_inch_material_stays_exact() {
    let envelope =
        generate_svg(2, 2, 3_175, &container(100, 100, 100), "a", "b").assembled_dimensions;
    assert_eq!(envelope.width, 208_000 + 3 * 3_175);
    assert_eq!(envelope.height, 200_000 + 2 * 3_175);
}

#[test]
fn racks_that_cannot_be_laid_out_are_refused() {
    let good = container(80, 120, 60);
    assert!(can_generate(1, 1, 3_000, &good));
    assert!(try_generate_svg(1, 1, 3_000, &good, "a", "b").is_some());
    // no column
    assert!(!can_generate(1, 0, 3_000, &good));
    assert!(try_generate_svg(1, 0, 3_000, &good, "a", "b").is_none());
    // too shallow for the two slot groups
    let shallow = container(80, 74, 60);
    assert!(!can_generate(1, 1, 3_000, &shallow));
    assert!(try_generate_svg(1, 1, 3_000, &shallow, "a", "b").is_none());
    assert!(can_generate(1, 1, 3_000, &container(80, 75, 60)));
    // beyond machine integers
    let huge = container(usize::MAX / 1000 + 1, 120, 60);
    assert!(!can_generate(1, 1, 3_000, &huge));
    assert!(!can_generate(usize::MAX, 2, 3_000, &good));
    assert!(!can_generate(1, 1, usize::MAX, &good));
}

#[test]
fn try_generate_agrees_with_generate() {
    let container = container(90, 110, 70);
    let tried = try_generate_svg(1, 4, 4_000, &container, "#000000", "#FF0000");
    assert_eq!(tried, Some(generate_svg(1, 4, 4_000, &container, "#000000", "#FF0000")));
}

#[test]
fn no_rows_leave_only_covers_and_bare_side_panels() {
    let sheet = generate_svg(0, 2, 3_000, &container(80, 120, 60), "black", "blue");
    assert_eq!(sheet.document.paths.len(), 6 + 3);
    assert_eq!(sheet.assembled_dimensions.height, 6_000);
}

#[test]
fn without_rows_the_depth_only_needs_room_for_the_side_taps() {
    assert!(can_generate(0, 1, 3_000, &container(80, 60, 60)));
    assert!(!can_generate(0, 1, 3_000, &container(80, 59, 60)));
    assert!(!can_generate(1, 1, 3_000, &container(80, 60, 60)));
    let sheet = try_generate_svg(0, 1, 3_000, &container(80, 60, 60), "a", "b").unwrap();
    assert_eq!(sheet.document.paths.len(), 4);
    assert_eq!(sheet.assembled_dimensions.depth, 60_000);
}
