use ble_address::hex::push_hex_pair;

#[test]
fn hex_pair_of_each_octet() {
    let mut b: u16 = 0;
    while b < 256 {
        let mut text = String::new();
        push_hex_pair(&mut text, b as u8);
        assert_eq!(text, format!("{:02X}", b));
        b += 1;
    }
}

#[test]
fn hex_pair_appends_after_what_is_there() {
    let mut text = String::from("0x");
    push_hex_pair(&mut text, 0x0F);
    push_hex_pair(&mut text, 0xA0);
    assert_eq!(text, "0x0FA0");
}
