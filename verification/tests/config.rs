use kornia_apriltag::config::{Float32, DEFAULT_DOWNSCALE_FACTOR};
use kornia_apriltag::{DecodeTagsConfig, TagFamily, TagFamilyKind};

type Config = DecodeTagsConfig<u32>;

fn custom_family(width_at_border: usize, reversed_border: bool) -> TagFamily {
    TagFamily {
        kind: TagFamilyKind::Tag16H5,
        width_at_border,
        reversed_border,
        hamming_distance: None,
    }
}

#[test]
fn new_fills_in_the_defaults() {
    let config = Config::new(vec![TagFamilyKind::Tag36H11]);
    assert_eq!(config.tag_families, vec![TagFamily::from(&TagFamilyKind::Tag36H11)]);
    assert_eq!(config.fit_quad_config, 0);
    assert!(config.refine_edges_enabled);
    assert_eq!(config.decode_sharpening, Float32 { bits: 0.25f32.to_bits() });
    assert!(config.normal_border);
    assert!(!config.reversed_border);
    assert_eq!(config.min_tag_width, 8);
    assert_eq!(config.min_white_black_difference, 5);
    assert_eq!(config.downscale_factor, 2);
    assert_eq!(DEFAULT_DOWNSCALE_FACTOR, 2);
}

#[test]
fn new_keeps_the_order_of_kinds() {
    let kinds = vec![
        TagFamilyKind::TagStandard52H13,
        TagFamilyKind::Tag16H5,
        TagFamilyKind::Tag16H5,
    ];
    let config = Config::new(kinds.clone());
    let listed: Vec<TagFamilyKind> = config.tag_families.iter().map(|f| f.kind).collect();
    assert_eq!(listed, kinds);
}

#[test]
fn new_without_kinds_has_no_borders() {
    let config = Config::new(vec![]);
    assert!(config.tag_families.is_empty());
    assert!(!config.normal_border);
    assert!(!config.reversed_border);
    assert_eq!(config.min_tag_width, usize::MAX);
}

#[test]
fn new_sees_both_borders() {
    let config = Config::new(vec![TagFamilyKind::Tag25H9, TagFamilyKind::TagCircle21H7]);
    assert!(config.normal_border);
    assert!(config.reversed_border);
    assert_eq!(config.min_tag_width, 5);

    let reversed = Config::new(vec![TagFamilyKind::TagCustom48H12]);
    assert!(!reversed.normal_border);
    assert!(reversed.reversed_border);
    assert_eq!(reversed.min_tag_width, 6);
}

#[test]
fn widths_of_the_families() {
    let widths: Vec<(TagFamilyKind, usize)> = TagFamilyKind::all()
        .iter()
        .map(|kind| (*kind, TagFamily::from(kind).width_at_border))
        .collect();
    assert_eq!(
        widths,
        vec![
            (TagFamilyKind::Tag16H5, 6),
            (TagFamilyKind::Tag25H9, 7),
            (TagFamilyKind::Tag36H11, 8),
            (TagFamilyKind::TagCircle21H7, 5),
            (TagFamilyKind::TagCircle49H12, 5),
            (TagFamilyKind::TagCustom48H12, 6),
            (TagFamilyKind::TagStandard41H12, 5),
            (TagFamilyKind::TagStandard52H13, 6),
        ]
    );
}

/// In the sample images of the families a cell is five pixels wide; the border of the tag reaches
/// from the first to the second of the given pixels.
#[test]
fn widths_agree_with_the_sample_images() {
    for (kind, from, to) in [
        (TagFamilyKind::Tag16H5, 10, 40),
        (TagFamilyKind::Tag25H9, 10, 45),
        (TagFamilyKind::Tag36H11, 10, 50),
        (TagFamilyKind::TagCircle21H7, 15, 40),
        (TagFamilyKind::TagCircle49H12, 20, 45),
        (TagFamilyKind::TagCustom48H12, 15, 45),
        (TagFamilyKind::TagStandard41H12, 15, 40),
        (TagFamilyKind::TagStandard52H13, 15, 45),
    ] {
        assert_eq!(TagFamily::from(&kind).width_at_border * 5, to - from);
    }
}

#[test]
fn hamming_distance_halves_the_least_width() {
    let config = Config::with_hamming_distance(vec![TagFamilyKind::Tag36H11], 1);
    assert_eq!(config.min_tag_width, 4);
    assert_eq!(config.tag_families.len(), 1);
    assert_eq!(config.tag_families[0].hamming_distance, Some(1));
    assert_eq!(config.tag_families[0].width_at_border, 8);
    assert!(config.normal_border);
    assert!(!config.reversed_border);
    assert_eq!(config.fit_quad_config, 0);
    assert!(config.refine_edges_enabled);
    assert_eq!(f32::from_bits(config.decode_sharpening.bits), 0.25);
    assert_eq!(config.min_white_black_difference, 5);
    assert_eq!(config.downscale_factor, 2);
}

#[test]
fn hamming_distance_raises_the_least_width_to_three() {
    let config = Config::with_hamming_distance(vec![TagFamilyKind::TagStandard41H12], 3);
    assert_eq!(config.min_tag_width, 3);
    assert_eq!(Config::with_hamming_distance(vec![], 3).min_tag_width, usize::MAX / 2);
}

#[test]
fn hamming_distance_keeps_the_shape_of_families() {
    let kinds = vec![TagFamilyKind::Tag16H5, TagFamilyKind::TagCircle49H12];
    let plain = Config::new(kinds.clone());
    let correcting = Config::with_hamming_distance(kinds, 2);
    assert_eq!(plain.normal_border, correcting.normal_border);
    assert_eq!(plain.reversed_border, correcting.reversed_border);
    for (a, b) in plain.tag_families.iter().zip(correcting.tag_families.iter()) {
        assert_eq!(a.hamming_distance, None);
        assert_eq!(*b, TagFamily::with_hamming_distance(*a, 2));
    }
}

#[test]
fn all_lists_every_kind_once() {
    let config = Config::all();
    let kinds: Vec<TagFamilyKind> = config.tag_families.iter().map(|f| f.kind).collect();
    assert_eq!(kinds, TagFamilyKind::all());
    assert_eq!(kinds.len(), 8);
    for (i, kind) in kinds.iter().enumerate() {
        assert!(!kinds[i + 1..].contains(kind));
    }
    assert!(config.normal_border);
    assert!(config.reversed_border);
    assert_eq!(config.min_tag_width, 5);
    assert_eq!(config, Config::new(TagFamilyKind::all()));
}

#[test]
fn all_with_hamming_distance_corrects_every_family() {
    let config = Config::all_with_hamming_distance(2);
    assert_eq!(config, Config::with_hamming_distance(TagFamilyKind::all(), 2));
    assert!(config.tag_families.iter().all(|f| f.hamming_distance == Some(2)));
    assert_eq!(config.min_tag_width, 3);
}

#[test]
fn add_extends_the_configuration() {
    let mut config = Config::new(vec![TagFamilyKind::Tag36H11]);
    config.add(TagFamily::from(&TagFamilyKind::TagCircle21H7));
    assert_eq!(
        config,
        Config::new(vec![TagFamilyKind::Tag36H11, TagFamilyKind::TagCircle21H7])
    );

    config.add(custom_family(9, false));
    assert_eq!(config.min_tag_width, 5);
    assert_eq!(config.tag_families.len(), 3);
    assert_eq!(config.tag_families[2].width_at_border, 9);
}

#[test]
fn add_may_go_below_three() {
    let mut config = Config::new(vec![TagFamilyKind::Tag16H5]);
    config.add(custom_family(2, true));
    assert_eq!(config.min_tag_width, 2);
    assert!(config.normal_border);
    assert!(config.reversed_border);
    assert_eq!(config.tag_families.len(), 2);
}

#[test]
fn add_compares_full_widths_with_the_halved_one() {
    let mut config = Config::with_hamming_distance(vec![TagFamilyKind::Tag36H11], 1);
    config.add(TagFamily::from(&TagFamilyKind::TagCircle21H7));
    assert_eq!(config.min_tag_width, 4);
}

#[test]
fn order_of_kinds_does_not_matter_to_widths_and_borders() {
    let mut kinds = TagFamilyKind::all();
    let forward = Config::new(kinds.clone());
    kinds.reverse();
    let backward = Config::new(kinds);
    assert_eq!(forward.min_tag_width, backward.min_tag_width);
    assert_eq!(forward.normal_border, backward.normal_border);
    assert_eq!(forward.reversed_border, backward.reversed_border);
}

#[test]
fn sharpening_factors_compare_as_numbers() {
    let float = |value: f32| Float32 { bits: value.to_bits() };
    let values = [
        0.0,
        -0.0,
        0.25,
        -0.25,
        1.0,
        f32::MIN_POSITIVE,
        f32::from_bits(1),
        f32::MAX,
        f32::INFINITY,
        f32::NEG_INFINITY,
        f32::NAN,
        -f32::NAN,
        f32::from_bits(0x7F80_0001),
        f32::from_bits(0xFFFF_FFFF),
    ];
    for a in values {
        for b in values {
            assert_eq!(float(a) == float(b), a == b);
        }
    }
    assert!(float(0.0) == float(-0.0));
    assert!(float(f32::NAN) != float(f32::NAN));
}

#[test]
fn configurations_compare_by_the_value_of_the_sharpening_factor() {
    let mut a = Config::new(vec![TagFamilyKind::Tag36H11]);
    let mut b = a.clone();
    a.decode_sharpening = Float32 { bits: 0.0f32.to_bits() };
    b.decode_sharpening = Float32 { bits: (-0.0f32).to_bits() };
    assert!(a == b);
    a.decode_sharpening = Float32 { bits: f32::NAN.to_bits() };
    assert!(a != a.clone());
}

#[test]
fn two_hamming_distances_differ_in_the_families_only() {
    let kinds = vec![TagFamilyKind::Tag25H9, TagFamilyKind::TagStandard52H13];
    let a = Config::with_hamming_distance(kinds.clone(), 0);
    let mut b = Config::with_hamming_distance(kinds, 3);
    assert!(a != b);
    b.tag_families = a.tag_families.clone();
    assert_eq!(a, b);
}

#[test]
fn hamming_distance_changes_families_and_least_width_only() {
    let plain = Config::all();
    let mut correcting = Config::all_with_hamming_distance(1);
    assert_eq!(correcting.min_tag_width, (plain.min_tag_width / 2).max(3));
    correcting.min_tag_width = plain.min_tag_width;
    correcting.tag_families = plain.tag_families.clone();
    assert_eq!(plain, correcting);
}

#[test]
fn kinds_in_another_order_give_the_families_in_that_order() {
    let kinds = TagFamilyKind::all();
    let order = [3, 0, 7, 1, 6, 2, 5, 4];
    let forward = Config::new(kinds.clone());
    let mut other = Config::new(order.iter().map(|j| kinds[*j]).collect());
    let listed: Vec<TagFamily> = order.iter().map(|j| forward.tag_families[*j]).collect();
    assert_eq!(other.tag_families, listed);
    other.tag_families = forward.tag_families.clone();
    assert_eq!(forward, other);
}

#[test]
fn adding_to_no_kinds_gives_one_kind() {
    let mut config = Config::new(vec![]);
    config.add(TagFamily::from(&TagFamilyKind::TagCircle49H12));
    assert_eq!(config, Config::new(vec![TagFamilyKind::TagCircle49H12]));
}
