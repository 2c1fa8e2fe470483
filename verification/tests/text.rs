use external_compositor::text::pointer_text;

#[test]
fn addresses_read_as_hexadecimal_numbers() {
    assert_eq!(pointer_text(0), "0x0");
    assert_eq!(pointer_text(9), "0x9");
    assert_eq!(pointer_text(0xf), "0xf");
    assert_eq!(pointer_text(0x10), "0x10");
    assert_eq!(pointer_text(0x7f01_a2b3), "0x7f01a2b3");
}

#[test]
fn addresses_read_as_pointers_do() {
    for address in [0, 1, 0xabc, 0xdead_beef, usize::MAX] {
        assert_eq!(
            pointer_text(address),
            format!("{:p}", std::ptr::without_provenance::<u8>(address))
        );
    }
}
