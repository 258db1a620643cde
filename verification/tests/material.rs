use akizuki::identifiers::{ResourceId, StringId};
use akizuki::table::v14::material::{MaterialPropertyId14, MaterialPrototype14};

fn p16(v: &mut Vec<u8>, x: u16) {
    v.extend_from_slice(&x.to_le_bytes());
}

fn p32(v: &mut Vec<u8>, x: u32) {
    v.extend_from_slice(&x.to_le_bytes());
}

fn p64(v: &mut Vec<u8>, x: u64) {
    v.extend_from_slice(&x.to_le_bytes());
}

fn pad(v: &mut Vec<u8>, n: usize) {
    for _ in 0..n {
        v.push(0);
    }
}

#[test]
fn test_property_id_packing() {
    let id = MaterialPropertyId14(0x0125);
    assert_eq!(id.property_type(), 5);
    assert_eq!(id.index(), 0x12);
}

/// One record with three properties: a boolean, a float and a
/// two-component vector, each drawn from its own typed array.
#[test]
fn test_material_property_bag() {
    let names_at = 120u64;
    let ids_at = names_at + 3 * 4;
    let bools_at = ids_at + 3 * 2;
    let floats_at = bools_at + 1;
    let v2_at = floats_at + 4;

    let mut v = Vec::new();
    p16(&mut v, 3); // property count
    v.push(1); // booleans
    v.push(0); // signed
    v.push(0); // unsigned
    v.push(1); // floats
    v.push(0); // textures
    v.push(1); // two-component vectors
    v.push(0); // three-component vectors
    v.push(0); // four-component vectors
    v.push(0); // matrices
    pad(&mut v, 5);
    p64(&mut v, names_at);
    p64(&mut v, ids_at);
    p64(&mut v, bools_at);
    p64(&mut v, 0); // signed offset, empty
    p64(&mut v, 0); // unsigned offset, empty
    p64(&mut v, floats_at);
    p64(&mut v, 0); // texture offset, empty
    p64(&mut v, v2_at);
    p64(&mut v, 0); // three-component offset, empty
    p64(&mut v, 0); // four-component offset, empty
    p64(&mut v, 0); // matrix offset, empty
    p64(&mut v, 0x77); // effect path
    p32(&mut v, 5); // collision flags
    p32(&mut v, (-3i32) as u32); // draw order
    assert_eq!(v.len(), names_at as usize);

    p32(&mut v, 0xAAA1);
    p32(&mut v, 0xAAA2);
    p32(&mut v, 0xAAA3);
    p16(&mut v, 0x0000); // boolean 0
    p16(&mut v, 0x0003); // float 0
    p16(&mut v, 0x0005); // two-component 0
    v.push(1); // the boolean value
    p32(&mut v, 1.5f32.to_bits());
    p32(&mut v, 2.0f32.to_bits());
    p32(&mut v, 3.0f32.to_bits());

    let mut pos = 0usize;
    let m = MaterialPrototype14::new(&v, &mut pos).unwrap();
    assert_eq!(pos, 120);

    assert_eq!(m.bools.get(&0xAAA1), Some(&true));
    assert_eq!(m.floats.get(&0xAAA2), Some(&1.5f32.to_bits()));
    assert!(m.ints.is_empty());
    assert!(m.uints.is_empty());
    assert!(m.textures.is_empty());
    assert_eq!(m.vector2s.len(), 1);
    assert_eq!(m.vector2s[0].0, StringId(0xAAA3));
    assert_eq!(m.vector2s[0].1.bits, vec![2.0f32.to_bits(), 3.0f32.to_bits()]);
    assert!(m.vector3s.is_empty());
    assert!(m.vector4s.is_empty());
    assert!(m.matrices.is_empty());
    assert_eq!(m.fx_path, ResourceId(0x77));
    assert_eq!(m.collision_flags, 5);
    assert_eq!(m.sort_order, -3);
}
