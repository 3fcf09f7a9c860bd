//! Tests of the item manifest.

use ascendancy_lib::items::ItemData;
use ascendancy_lib::items::ItemKind;
use ascendancy_lib::items::ItemManifest;
use ascendancy_lib::items::ItemTag;
use ascendancy_lib::items::RawItemData;

fn data(volume: u32, fluid: bool, category: &str) -> ItemData {
    ItemData {
        volume_per_unit: volume,
        fluid,
        category: category.to_owned(),
    }
}

#[test]
fn raw_data_processes_unchanged() {
    let raw = RawItemData {
        volume_per_unit: 7,
        fluid: true,
        category: "gas".to_owned(),
    };
    let processed = ItemData::from(raw);
    assert_eq!(processed.volume_per_unit, 7);
    assert!(processed.fluid);
    assert_eq!(processed.category, "gas");
}

#[test]
fn insert_and_lookup() {
    let mut manifest = ItemManifest::new();
    let water = manifest.insert("water".to_owned(), data(1, true, "liquids"));
    let iron = manifest.insert("iron".to_owned(), data(5, false, "metals"));
    assert_eq!(manifest.get(water).volume_per_unit, 1);
    assert_eq!(manifest.get(iron).volume_per_unit, 5);
    assert_eq!(manifest.name(water), "water");
    assert_eq!(manifest.name(iron), "iron");
    assert_eq!(manifest.variants().len(), 2);
}

#[test]
fn has_tag_reads_the_fluid_flag() {
    let mut manifest = ItemManifest::new();
    let water = manifest.insert("water".to_owned(), data(1, true, "liquids"));
    let iron = manifest.insert("iron".to_owned(), data(5, false, "metals"));
    assert!(manifest.has_tag(water, ItemTag::Fluid));
    assert!(!manifest.has_tag(iron, ItemTag::Fluid));
}

#[test]
fn tags_are_empty_and_kinds_hold_the_item() {
    let mut manifest = ItemManifest::new();
    let water = manifest.insert("water".to_owned(), data(1, true, "liquids"));
    assert!(manifest.tags(water).is_empty());
    assert_eq!(manifest.kinds(water), vec![ItemKind::Single(water)]);
}

#[test]
fn kinds_with_tag_lists_fluids_then_the_tag() {
    let mut manifest = ItemManifest::new();
    let water = manifest.insert("water".to_owned(), data(1, true, "liquids"));
    let iron = manifest.insert("iron".to_owned(), data(5, false, "metals"));
    let oil = manifest.insert("oil".to_owned(), data(2, true, "liquids"));
    let _ = iron;
    let kinds = manifest.kinds_with_tag(ItemTag::Fluid);
    assert_eq!(
        kinds,
        vec![
            ItemKind::Single(water),
            ItemKind::Single(oil),
            ItemKind::Tag(ItemTag::Fluid),
        ]
    );
}

#[test]
fn name_of_kind_names_items_and_tags() {
    let mut manifest = ItemManifest::new();
    let water = manifest.insert("water".to_owned(), data(1, true, "liquids"));
    assert_eq!(manifest.name_of_kind(ItemKind::Single(water)), "water");
    assert_eq!(manifest.name_of_kind(ItemKind::Tag(ItemTag::Fluid)), "Fluid");
    assert_eq!(
        manifest.name_of_kind(ItemKind::Tag(ItemTag::Category)),
        "Category"
    );
}

#[test]
fn raw_manifest_processes_every_item_in_order() {
    let raw = ascendancy_lib::items::RawItemManifest {
        items: vec![
            (
                "water".to_owned(),
                RawItemData {
                    volume_per_unit: 1,
                    fluid: true,
                    category: "liquids".to_owned(),
                },
            ),
            (
                "iron".to_owned(),
                RawItemData {
                    volume_per_unit: 5,
                    fluid: false,
                    category: "metals".to_owned(),
                },
            ),
        ],
    };
    let manifest = raw.process();
    let ids = manifest.variants();
    assert_eq!(ids.len(), 2);
    assert_eq!(manifest.name(ids[0]), "water");
    assert_eq!(manifest.name(ids[1]), "iron");
    assert!(manifest.get(ids[0]).fluid);
    assert_eq!(manifest.get(ids[1]).volume_per_unit, 5);
}
