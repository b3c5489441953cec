use container_rack_lib::container::key_from_lowercase;
use container_rack_lib::{find_container, Container, ContainerDimensions, ContainerLink};
use url::Url;

fn entry(vendor: &str, model: &str) -> Container {
    Container {
        vendor: vendor.to_string(),
        model: model.to_string(),
        description: String::new(),
        links: vec![],
        dimensions: ContainerDimensions {
            width: 155,
            depth: 210,
            height: 55,
            side_wing_from_box_top: 14,
            side_wing_width: 8,
        },
    }
}

#[test]
fn key_is_lower_case_with_underscores_for_spaces() {
    assert_eq!(entry("Acme Corp", "Stack Box 2").key(), "acme_corp-stack_box_2");
    assert_eq!(entry("acme", "b").key(), "acme-b");
    assert_eq!(entry("", "").key(), "-");
    assert_eq!(entry("  ", "X Y").key(), "__-x_y");
}

#[test]
fn key_keeps_hyphens_and_underscores() {
    assert_eq!(entry("A-B", "c_d").key(), "a-b-c_d");
}

#[test]
fn key_lowers_letters_beyond_ascii() {
    assert_eq!(entry("ÄRGER", "Öl Box").key(), "ärger-öl_box");
}

#[test]
fn key_from_lowercase_only_exchanges_spaces() {
    assert_eq!(key_from_lowercase("a b  c"), "a_b__c");
    assert_eq!(key_from_lowercase("Kept As Is"), "Kept_As_Is");
    assert_eq!(key_from_lowercase(""), "");
}

#[test]
fn find_container_returns_the_first_match() {
    let catalogue =
        vec![entry("Acme", "Small"), entry("Acme", "Large"), entry("ACME", "large"), entry("B", "C")];
    assert_eq!(find_container(&catalogue, "acme-small"), Some(0));
    assert_eq!(find_container(&catalogue, "acme-large"), Some(1));
    assert_eq!(find_container(&catalogue, "b-c"), Some(3));
}

#[test]
fn find_container_ignores_the_case_of_the_key() {
    let catalogue = vec![entry("Acme", "Small Box")];
    assert_eq!(find_container(&catalogue, "acme-small_box"), Some(0));
    assert_eq!(find_container(&catalogue, "Acme-Small_Box"), Some(0));
    assert_eq!(find_container(&catalogue, "ACME-SMALL_BOX"), Some(0));
    assert_eq!(find_container(&catalogue, "acme-small box"), None);
    assert_eq!(find_container(&catalogue, "acme_small_box"), None);
    assert_eq!(find_container(&catalogue, ""), None);
    assert_eq!(find_container(&Vec::new(), "acme-small_box"), None);
}

#[test]
fn key_exchanges_nothing_but_spaces() {
    assert_eq!(entry("a\tb", "c  d").key(), "a\tb-c__d");
    assert_eq!(key_from_lowercase(" "), "_");
    assert_eq!(key_from_lowercase("é è"), "é_è");
}

#[test]
fn containers_carry_their_links() {
    let mut container = entry("Acme", "Small");
    container.links.push(ContainerLink {
        url: Url::parse("https://example.com/small").unwrap(),
        title: "Product page".to_string(),
    });
    let copy = container.clone();
    assert_eq!(copy.links.len(), 1);
    assert_eq!(copy.links[0].url.as_str(), "https://example.com/small");
    assert_eq!(copy.links[0].title, "Product page");
    assert_eq!(copy.key(), "acme-small");
}

#[test]
fn dimensions_scale_to_a_finer_unit() {
    let dimensions = entry("a", "b").dimensions;
    assert!(dimensions.can_scale(1000));
    assert_eq!(
        dimensions.scale(1000),
        ContainerDimensions {
            width: 155_000,
            depth: 210_000,
            height: 55_000,
            side_wing_from_box_top: 14_000,
            side_wing_width: 8_000,
        }
    );
    assert!(dimensions.can_scale(usize::MAX / 210));
    assert!(!dimensions.can_scale(usize::MAX / 210 + 1));
    assert!(dimensions.can_scale(0));
}
