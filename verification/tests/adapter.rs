use textured_quad::adapter::{
    description_contains, keyword, next_feature_level, select_adapter, FeatureLevel,
};

fn units(text: &str) -> Vec<u16> {
    text.encode_utf16().collect()
}

// A description as an adapter reports it: 128 units, zero after the text.
fn description(text: &str) -> Vec<u16> {
    let mut all = units(text);
    all.resize(128, 0);
    all
}

#[test]
fn the_keyword_spells_nvidia() {
    assert_eq!(keyword(), units("NVIDIA"));
}

#[test]
fn a_description_holds_the_keyword_wherever_it_stands() {
    let keyword = keyword();
    assert!(description_contains(&units("NVIDIA GeForce RTX 3080"), &keyword));
    assert!(description_contains(&units("Some NVIDIA adapter"), &keyword));
    assert!(description_contains(&units("by NVIDIA"), &keyword));
    assert!(description_contains(&units("NVIDIA"), &keyword));
    assert!(description_contains(&description("NVIDIA GeForce RTX 3080"), &keyword));
}

#[test]
fn a_description_without_the_keyword_does_not_hold_it() {
    let keyword = keyword();
    assert!(!description_contains(&units("Intel(R) UHD Graphics 630"), &keyword));
    assert!(!description_contains(&units("nvidia"), &keyword));
    assert!(!description_contains(&units("NVIDI"), &keyword));
    assert!(!description_contains(&units("NVID IA"), &keyword));
    assert!(!description_contains(&units("N V I D I A"), &keyword));
    assert!(!description_contains(&units(""), &keyword));
    assert!(!description_contains(&description("Microsoft Basic Render Driver"), &keyword));
}

#[test]
fn the_search_agrees_with_the_search_in_the_text() {
    let texts = ["", "a", "ab", "ba", "aab", "abab", "bbbb", "xaby", "\u{1F600}ab", "a\u{1F600}b"];
    for hay in texts {
        for needle in texts {
            assert_eq!(
                description_contains(&units(hay), &units(needle)),
                hay.contains(needle),
                "{:?} in {:?}",
                needle,
                hay
            );
        }
    }
}

#[test]
fn the_empty_keyword_stands_everywhere() {
    assert!(description_contains(&units("abc"), &[]));
    assert!(description_contains(&[], &[]));
}

#[test]
fn the_first_adapter_with_the_keyword_is_chosen() {
    let adapters = vec![
        description("Intel(R) UHD Graphics 630"),
        description("NVIDIA GeForce GTX 1650"),
        description("NVIDIA GeForce RTX 3080"),
        description("Microsoft Basic Render Driver"),
    ];
    assert_eq!(select_adapter(&adapters, &keyword()), Some(1));
}

#[test]
fn no_adapter_stands_in_where_none_has_the_keyword() {
    let adapters = vec![
        description("Intel(R) UHD Graphics 630"),
        description("AMD Radeon RX 6800"),
        description("Microsoft Basic Render Driver"),
    ];
    assert_eq!(select_adapter(&adapters, &keyword()), None);
    assert_eq!(select_adapter(&vec![], &keyword()), None);
}

#[test]
fn the_feature_levels_are_tried_from_the_highest_down() {
    let mut tried = Vec::new();
    let mut level = next_feature_level(None);
    while let Some(current) = level {
        tried.push(current);
        level = next_feature_level(Some(current));
    }
    assert_eq!(
        tried,
        vec![
            FeatureLevel::Level12_2,
            FeatureLevel::Level12_1,
            FeatureLevel::Level12_0,
            FeatureLevel::Level11_1,
            FeatureLevel::Level11_0,
        ]
    );
    assert_eq!(next_feature_level(Some(FeatureLevel::Level11_0)), None);
}

#[test]
fn each_feature_level_tried_is_lower_than_the_one_before() {
    let mut level = next_feature_level(None).unwrap();
    assert_eq!((level.major(), level.minor()), (12, 2));
    while let Some(next) = next_feature_level(Some(level)) {
        assert!((next.major(), next.minor()) < (level.major(), level.minor()));
        level = next;
    }
    assert_eq!((level.major(), level.minor()), (11, 0));
}
