use container_rack_lib::{generate_svg, Container, ContainerDimensions};

fn micrometres(millimetres: f64) -> usize {
    (millimetres * 1000.0).round() as usize
}

fn millimetres(micrometres: usize) -> f64 {
    micrometres as f64 / 1000.0
}

fn container(width: usize, depth: usize, height: usize) -> Container {
    Container {
        vendor: "Test".to_string(),
        model: "Test".to_string(),
        description: "Test".to_string(),
        links: vec![],
        dimensions: ContainerDimensions {
            width,
            depth,
            height,
            side_wing_from_box_top: 10,
            side_wing_width: 20,
        },
    }
}

#[test]
fn test_known_values_2x3_rack() {
    let container = container(100, 100, 100);

    let result = generate_svg(2, 3, micrometres(5.0), &container, "#000000", "#FF0000");

    // Width: (100 + 4) * 3 + (3 + 1) * 5 = 312 + 20 = 332mm
    let expected_width = 332.0;
    // Height: 100 * 2 + 5 * 2 = 200 + 10 = 210mm
    let expected_height = 210.0;
    // Depth: 100mm (unchanged)
    let expected_depth = 100.0;

    assert_eq!(millimetres(result.assembled_dimensions.width), expected_width);
    assert_eq!(millimetres(result.assembled_dimensions.height), expected_height);
    assert_eq!(millimetres(result.assembled_dimensions.depth), expected_depth);
}

#[test]
fn test_minimum_configuration_1x1() {
    let container = container(80, 120, 60);

    let result = generate_svg(1, 1, micrometres(3.0), &container, "#000000", "#FF0000");

    // Width: (80 + 4) * 1 + (1 + 1) * 3 = 84 + 6 = 90mm
    let expected_width = 90.0;
    // Height: 60 * 1 + 3 * 2 = 60 + 6 = 66mm
    let expected_height = 66.0;
    // Depth: 120mm (unchanged)
    let expected_depth = 120.0;

    assert_eq!(millimetres(result.assembled_dimensions.width), expected_width);
    assert_eq!(millimetres(result.assembled_dimensions.height), expected_height);
    assert_eq!(millimetres(result.assembled_dimensions.depth), expected_depth);
}

#[test]
fn test_very_small_material_thickness() {
    let container = container(100, 100, 100);

    let result = generate_svg(2, 2, micrometres(0.5), &container, "#000000", "#FF0000");

    // Width: (100 + 4) * 2 + (2 + 1) * 0.5 = 208 + 1.5 = 209.5mm
    let expected_width = 209.5;
    // Height: 100 * 2 + 0.5 * 2 = 200 + 1.0 = 201mm
    let expected_height = 201.0;
    // Depth: 100mm (unchanged)
    let expected_depth = 100.0;

    assert_eq!(millimetres(result.assembled_dimensions.width), expected_width);
    assert_eq!(millimetres(result.assembled_dimensions.height), expected_height);
    assert_eq!(millimetres(result.assembled_dimensions.depth), expected_depth);
}

#[test]
fn test_large_configuration() {
    let container = container(150, 200, 120);

    let result = generate_svg(5, 5, micrometres(6.0), &container, "#000000", "#FF0000");

    // Width: (150 + 4) * 5 + (5 + 1) * 6 = 770 + 36 = 806mm
    let expected_width = 806.0;
    // Height: 120 * 5 + 6 * 2 = 600 + 12 = 612mm
    let expected_height = 612.0;
    // Depth: 200mm (unchanged)
    let expected_depth = 200.0;

    assert_eq!(millimetres(result.assembled_dimensions.width), expected_width);
    assert_eq!(millimetres(result.assembled_dimensions.height), expected_height);
    assert_eq!(millimetres(result.assembled_dimensions.depth), expected_depth);
}

#[test]
fn test_single_row_multiple_columns() {
    let container = container(90, 110, 70);

    let result = generate_svg(1, 4, micrometres(4.0), &container, "#000000", "#FF0000");

    // Width: (90 + 4) * 4 + (4 + 1) * 4 = 376 + 20 = 396mm
    let expected_width = 396.0;
    // Height: 70 * 1 + 4 * 2 = 70 + 8 = 78mm
    let expected_height = 78.0;
    // Depth: 110mm (unchanged)
    let expected_depth = 110.0;

    assert_eq!(millimetres(result.assembled_dimensions.width), expected_width);
    assert_eq!(millimetres(result.assembled_dimensions.height), expected_height);
    assert_eq!(millimetres(result.assembled_dimensions.depth), expected_depth);
}

#[test]
fn test_multiple_rows_single_column() {
    let container = container(85, 95, 65);

    let result = generate_svg(4, 1, micrometres(3.5), &container, "#000000", "#FF0000");

    // Width: (85 + 4) * 1 + (1 + 1) * 3.5 = 89 + 7 = 96mm
    let expected_width = 96.0;
    // Height: 65 * 4 + 3.5 * 2 = 260 + 7 = 267mm
    let expected_height = 267.0;
    // Depth: 95mm (unchanged)
    let expected_depth = 95.0;

    assert_eq!(millimetres(result.assembled_dimensions.width), expected_width);
    assert_eq!(millimetres(result.assembled_dimensions.height), expected_height);
    assert_eq!(millimetres(result.assembled_dimensions.depth), expected_depth);
}
