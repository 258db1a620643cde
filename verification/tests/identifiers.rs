use akizuki::identifiers::{ResourceId, ResourceLookup, StringId, StringLookup};

#[test]
fn identifiers_test_string_id() {
    const TEST_STR: &str = "Akizuki";

    assert_eq!(StringId::new(TEST_STR).value(), 0x8d949450);
}

#[test]
fn identifiers_test_string_id4() {
    const TEST_STR: &str = "Akizuki_";

    assert_eq!(StringId::new(TEST_STR).value(), 0xe344aed1);
}

#[test]
fn test_string_text() {
    const TEST_STR: &str = "Akizuki";
    let mut lookup = StringLookup::new();
    StringId::insert(&mut lookup, StringId(0x8d949450), TEST_STR);

    assert_eq!(StringId::new(TEST_STR).text(&lookup).unwrap(), TEST_STR);
}

#[test]
fn test_resource_id() {
    const TEST_STR: &str =
        "content/gameplay/japan/ship/destroyer/JSD011_Akizuki_1944/JSD011_Akizuki_1944.model";
    assert_eq!(ResourceId::new(TEST_STR).value(), 0x0df5a921212a899e);
}

#[test]
fn test_resource_id8() {
    const TEST_STR: &str =
        "content/gameplay/japan/ship/destroyer/JSD011_Akizuki_1944/JSD011_Akizuki_1944.mo";
    assert_eq!(ResourceId::new(TEST_STR).value(), 0xa8fa81214165ecb);
}

#[test]
fn test_resource_text() {
    const TEST_STR: &str =
        "content/gameplay/japan/ship/destroyer/JSD011_Akizuki_1944/JSD011_Akizuki_1944.model";
    let mut lookup = ResourceLookup::new();
    ResourceId::insert(&mut lookup, ResourceId(0x0df5a921212a899e), TEST_STR);

    assert_eq!(
        ResourceId(0x0df5a921212a899e).text(&lookup).unwrap(),
        TEST_STR
    );
}

#[test]
fn test_insert_twice_unchanged() {
    let mut lookup = StringLookup::new();
    StringId::insert(&mut lookup, StringId(0x8d949450), "Akizuki");
    StringId::insert(&mut lookup, StringId(0x8d949450), "Akizuki");

    assert_eq!(StringId(0x8d949450).text(&lookup).unwrap(), "Akizuki");
}

#[test]
fn test_invalid_ids_ignored() {
    let mut strings = StringLookup::new();
    StringId::insert(&mut strings, StringId(0), "zero");
    StringId::insert(&mut strings, StringId(0xFFFF_FFFF), "ones");
    assert!(StringId(0).text(&strings).is_none());
    assert!(StringId(0xFFFF_FFFF).text(&strings).is_none());
    assert_eq!(StringId(0).value(), 0xFFFF_FFFF);
    assert_eq!(StringId(0xFFFF_FFFF).value(), 0xFFFF_FFFF);

    let mut resources = ResourceLookup::new();
    ResourceId::insert(&mut resources, ResourceId(0), "zero");
    assert!(ResourceId(0).text(&resources).is_none());
    assert_eq!(ResourceId(0).value(), 0xFFFF_FFFF_FFFF_FFFF);
}

#[test]
fn test_lookup_snapshot() {
    let mut lookup = StringLookup::new();
    StringId::insert(&mut lookup, StringId(0x8d949450), "Akizuki");
    StringId::insert(&mut lookup, StringId(0xe344aed1), "Akizuki_");
    let mut entries = lookup.entries();
    entries.sort();
    assert_eq!(
        entries,
        vec![
            (0x8d949450, "Akizuki".to_string()),
            (0xe344aed1, "Akizuki_".to_string()),
        ]
    );
}
