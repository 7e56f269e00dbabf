use tedium_soc::{merged, Field, RegisterWord};

#[test]
fn with_sets_field_and_keeps_other_bits() {
    let w = RegisterWord::seeded(0xa5).with(Field::new(4, 2), 0b01);
    assert_eq!(w.value, 0x95);
    assert_eq!(w.touched, 0x30);
    assert_eq!(Field::new(4, 2).value_in(w.value), 0b01);
}

#[test]
fn last_setting_wins() {
    let f = Field::new(0, 3);
    let w = RegisterWord::zero().with(f, 5).with(f, 2);
    assert_eq!(w.value, 2);
    assert_eq!(w.touched, 0x07);
}

#[test]
fn full_write_is_or_of_fields() {
    let w = RegisterWord::zero()
        .with(Field::new(7, 1), 1)
        .with(Field::new(3, 3), 0b101)
        .with(Field::new(0, 2), 0b11);
    assert_eq!(w.value, 0x80 | (0b101 << 3) | 0b11);
    assert_eq!(w.touched, 0x80 | 0x38 | 0x03);
}

#[test]
fn whole_register_field() {
    let f = Field::new(0, 8);
    assert_eq!(f.bits(), 0xff);
    assert_eq!(RegisterWord::seeded(0x12).with(f, 0xff).value, 0xff);
}

#[test]
fn merge_keeps_unmasked_bits() {
    assert_eq!(merged(0xff, 0xfb, 0x01), 0x05);
    assert_eq!(merged(0x00, 0x0f, 0xff), 0x0f);
    assert_eq!(merged(0xaa, 0x00, 0x55), 0xaa);
}
