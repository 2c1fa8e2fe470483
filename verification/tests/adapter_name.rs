use external_compositor::adapter_name::gpu_name;

fn buffer(name: &str) -> Vec<u16> {
    let mut units: Vec<u16> = name.encode_utf16().collect();
    units.resize(128, 0);
    units
}

#[test]
fn a_padded_name_is_read_back() {
    let name = "NVIDIA GeForce RTX 4090";
    assert_eq!(gpu_name(&buffer(name)), name);
}

#[test]
fn names_beyond_ascii_are_read_back() {
    for name in ["Grafikkarte \u{e4}\u{f6}\u{fc}", "\u{663e}\u{5361}", "GPU \u{1f600}"] {
        assert_eq!(gpu_name(&buffer(name)), name);
    }
}

#[test]
fn a_buffer_without_a_name_has_an_empty_name() {
    assert_eq!(gpu_name(&[0; 128]), "");
    assert_eq!(gpu_name(&[]), "");
}

#[test]
fn zeros_are_only_trimmed_at_the_ends() {
    assert_eq!(gpu_name(&[0, 0, 65, 0, 66, 0]), "A\0B");
}

#[test]
fn unpaired_surrogates_are_replaced_one_by_one() {
    assert_eq!(gpu_name(&[0xd83d, 65, 0xde00, 0]), "\u{fffd}A\u{fffd}");
    assert_eq!(gpu_name(&[0xd83d, 0xd83d, 0xde00]), "\u{fffd}\u{1f600}");
    assert_eq!(gpu_name(&[65, 0xd83d, 0, 0]), "A\u{fffd}");
}

#[test]
fn spaces_around_a_name_are_kept() {
    assert_eq!(gpu_name(&buffer(" Intel ")), " Intel ");
}
