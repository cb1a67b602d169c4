use vm_isa::codec::{
    bits_to_signed, extract_bits, fits_signed, mask_of, opcode_bits, pack, place_bits,
    power_of_two, signed_to_bits, unpack, Field, FieldKind, SchemaEntry,
};

fn entry() -> SchemaEntry {
    SchemaEntry {
        opcode: 0x5a,
        fields: vec![
            Field { name: "a", width: 5, kind: FieldKind::Register },
            Field { name: "b", width: 14, kind: FieldKind::Immediate },
            Field { name: "c", width: 5, kind: FieldKind::Register },
        ],
    }
}

#[test]
fn masks() {
    assert_eq!(mask_of(0), 0);
    assert_eq!(mask_of(1), 1);
    assert_eq!(mask_of(5), 0x1f);
    assert_eq!(mask_of(14), 0x3fff);
    assert_eq!(mask_of(31), 0x7fff_ffff);
    assert_eq!(mask_of(32), 0xffff_ffff);
    assert_eq!(mask_of(40), 0xffff_ffff);
    assert_eq!(power_of_two(0), 1);
    assert_eq!(power_of_two(31), 0x8000_0000);
}

#[test]
fn place_and_extract() {
    assert_eq!(place_bits(0xffff_ffff, 8, 5), 0x1f00);
    assert_eq!(place_bits(3, 30, 2), 0xc000_0000);
    assert_eq!(extract_bits(0x1f00, 8, 5), 0x1f);
    assert_eq!(extract_bits(0xdead_beef, 16, 8), 0xad);
    assert_eq!(opcode_bits(0xdead_beef), 0xef);
}

#[test]
fn pack_places_fields_at_cumulative_offsets() {
    let word = pack(&entry(), &vec![0x11, 0x2abc, 0x1e]);
    assert_eq!(word, 0x5a | (0x11 << 8) | (0x2abc << 13) | (0x1e << 27));
    assert_eq!(unpack(&entry(), word), vec![0x11, 0x2abc, 0x1e]);
}

#[test]
fn pack_cuts_each_value_to_its_width() {
    let word = pack(&entry(), &vec![0xffff_ffff, 0, 0xffff_ffe1]);
    assert_eq!(word, 0x5a | (0x1f << 8) | (0x01 << 27));
    assert_eq!(unpack(&entry(), word), vec![0x1f, 0, 0x01]);
}

#[test]
fn signed_patterns() {
    assert!(fits_signed(-8192, 14));
    assert!(fits_signed(8191, 14));
    assert!(!fits_signed(-8193, 14));
    assert!(!fits_signed(8192, 14));
    assert!(!fits_signed(0, 0));
    assert!(!fits_signed(0, 32));
    assert!(fits_signed(-1, 1));
    assert!(!fits_signed(1, 1));
    assert_eq!(signed_to_bits(-1, 14), 0x3fff);
    assert_eq!(signed_to_bits(-31, 14), 0x3fe1);
    assert_eq!(signed_to_bits(150, 19), 150);
    assert_eq!(bits_to_signed(0x3fff, 14), -1);
    assert_eq!(bits_to_signed(0x3fe1, 14), -31);
    assert_eq!(bits_to_signed(0xffff_ffff, 31), -1);
    assert_eq!(bits_to_signed(0x4000_0000, 31), -1073741824);
    assert_eq!(bits_to_signed(1, 1), -1);
}

#[test]
fn layouts_are_validated() {
    assert!(entry().is_valid());
    assert!(SchemaEntry { opcode: 0, fields: vec![] }.is_valid());
    let field = |width| Field { name: "x", width, kind: FieldKind::Immediate };
    assert!(SchemaEntry { opcode: 1, fields: vec![field(24)] }.is_valid());
    assert!(!SchemaEntry { opcode: 1, fields: vec![field(25)] }.is_valid());
    assert!(!SchemaEntry { opcode: 1, fields: vec![field(5), field(0)] }.is_valid());
    assert!(!SchemaEntry { opcode: 1, fields: vec![field(12), field(12), field(1)] }.is_valid());
    assert!(!SchemaEntry { opcode: 1, fields: vec![field(u32::MAX), field(u32::MAX)] }.is_valid());
}
