use akizuki::mmh3::{mmh3_32, mmh3_fmix};

#[test]
fn mmh3_test_string_id() {
    const TEST_STR: &str = "Akizuki";

    assert_eq!(mmh3_32(TEST_STR.as_ref()), 0x8d949450);
}

#[test]
fn mmh3_test_string_id4() {
    const TEST_STR: &str = "Akizuki_";

    assert_eq!(mmh3_32(TEST_STR.as_ref()), 0xe344aed1);
}

#[test]
fn test_vec_unsigned() {
    let test_vec: [u8; 4] = [0xff, 0xff, 0xff, 0xff];

    assert_eq!(mmh3_32(&test_vec), 0x76293b50);
}

#[test]
fn test_vec_endianness() {
    let test_vec: [u8; 4] = [0x21, 0x43, 0x65, 0x87];

    assert_eq!(mmh3_32(&test_vec), 0xf55b516b);
}

#[test]
fn test_vec_3() {
    let test_vec: [u8; 3] = [0x21, 0x43, 0x65];

    assert_eq!(mmh3_32(&test_vec), 0x7e4a8634);
}

#[test]
fn test_vec_2() {
    let test_vec: [u8; 2] = [0x21, 0x43];

    assert_eq!(mmh3_32(&test_vec), 0xa0f7b07a);
}

#[test]
fn test_vec_1() {
    let test_vec: [u8; 1] = [0x21];

    assert_eq!(mmh3_32(&test_vec), 0x72661cf4);
}

#[test]
fn test_empty_input() {
    assert_eq!(mmh3_32(&[]), 0);
}

#[test]
fn test_fmix_zero() {
    assert_eq!(mmh3_fmix(0), 0);
}

#[test]
fn test_table_name_hashes() {
    assert_eq!(
        mmh3_32("VisualPrototype".as_ref()),
        akizuki::table::visual::VISUAL_PROTOTYPE_ID
    );
    assert_eq!(
        mmh3_32("ModelPrototype".as_ref()),
        akizuki::table::model::MODEL_PROTOTYPE_ID
    );
    assert_eq!(
        mmh3_32("MaterialPrototype".as_ref()),
        akizuki::table::material::MATERIAL_PROTOTYPE_ID
    );
}
