use imgui_styles::fonts::{Font, FontRegistry, DEFAULT_FONT_SIZE};
use imgui_styles::PatchError;

fn truetype_bytes() -> Vec<u8> {
    // sfnt version 0x00010000 followed by arbitrary table data
    vec![0x00, 0x01, 0x00, 0x00, 0xde, 0xad, 0xbe, 0xef]
}

fn otto_bytes() -> Vec<u8> {
    vec![0x4f, 0x54, 0x54, 0x4f, 0x01, 0x02]
}

#[test]
fn install_font_leaves_exactly_one_font() {
    let mut reg = FontRegistry::new();
    let first = Font::new_from_bytes(truetype_bytes());
    let second = Font::new_from_bytes(otto_bytes());
    assert_eq!(reg.add_font(&first, 1200), Ok(()));
    assert_eq!(reg.add_font(&second, 1400), Ok(()));
    assert_eq!(reg.entries.len(), 2);

    let installed = Font::new_from_bytes(truetype_bytes());
    assert_eq!(reg.install_font(&installed, 1600), Ok(()));
    assert_eq!(reg.entries.len(), 1);
    assert_eq!(reg.entries[0].data, truetype_bytes());
    assert_eq!(reg.entries[0].size, 1600);
}

#[test]
fn install_font_on_empty_registry() {
    let mut reg = FontRegistry::new();
    let font = Font::new_from_bytes(otto_bytes());
    assert_eq!(reg.install_font(&font, DEFAULT_FONT_SIZE), Ok(()));
    assert_eq!(reg.entries.len(), 1);
    assert_eq!(reg.entries[0].data, otto_bytes());
    assert_eq!(reg.entries[0].size, 1600);
}

#[test]
fn add_font_appends_in_order() {
    let mut reg = FontRegistry::new();
    let first = Font::new_from_bytes(truetype_bytes());
    let second = Font::new_from_bytes(otto_bytes());
    assert_eq!(reg.add_font(&first, 1000), Ok(()));
    assert_eq!(reg.add_font(&second, 2000), Ok(()));
    assert_eq!(reg.entries.len(), 2);
    assert_eq!(reg.entries[0].data, truetype_bytes());
    assert_eq!(reg.entries[0].size, 1000);
    assert_eq!(reg.entries[1].data, otto_bytes());
    assert_eq!(reg.entries[1].size, 2000);
}

#[test]
fn malformed_font_data_is_rejected() {
    let mut reg = FontRegistry::new();
    let good = Font::new_from_bytes(truetype_bytes());
    assert_eq!(reg.add_font(&good, 1600), Ok(()));

    let bad = Font::new_from_bytes(vec![0x61, 0x62, 0x63, 0x64, 0x65]);
    assert_eq!(reg.install_font(&bad, 1600), Err(PatchError::MalformedFontData));
    // the registry is untouched on failure
    assert_eq!(reg.entries.len(), 1);
    assert_eq!(reg.entries[0].data, truetype_bytes());
    assert_eq!(reg.add_font(&bad, 1600), Err(PatchError::MalformedFontData));
    assert_eq!(reg.entries.len(), 1);
}

#[test]
fn empty_font_data_is_rejected() {
    let mut reg = FontRegistry::new();
    let empty = Font::new_from_bytes(Vec::new());
    assert!(!empty.is_well_formed());
    assert_eq!(reg.install_font(&empty, 1600), Err(PatchError::MalformedFontData));
    assert_eq!(reg.entries.len(), 0);
}

#[test]
fn all_known_font_tags_are_accepted() {
    let tags: [[u8; 4]; 4] = [
        [0x00, 0x01, 0x00, 0x00],
        [0x4f, 0x54, 0x54, 0x4f],
        [0x74, 0x72, 0x75, 0x65],
        [0x74, 0x74, 0x63, 0x66],
    ];
    for tag in tags {
        let font = Font::new_from_bytes(tag.to_vec());
        assert!(font.is_well_formed());
    }
    let truncated = Font::new_from_bytes(vec![0x00, 0x01, 0x00]);
    assert!(!truncated.is_well_formed());
}

#[test]
fn font_keeps_its_bytes() {
    let font = Font::new_from_bytes(truetype_bytes());
    assert_eq!(*font.data(), truetype_bytes());
}
