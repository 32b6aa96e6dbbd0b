use imgui_styles::context::{FontPatchable, RenderContext};
use imgui_styles::embrace_the_darkness;
use imgui_styles::fonts::Font;
use imgui_styles::style::{Color, MetricKey, MetricValue, StyleRole};
use imgui_styles::PatchError;

fn bundled_font_bytes() -> Vec<u8> {
    vec![0x00, 0x01, 0x00, 0x00, 0x10, 0x20, 0x30, 0x40]
}

#[test]
fn combined_patch_from_zero_with_preregistered_fonts() {
    // an all-zero style object and a registry that already holds two fonts
    let mut ctx = RenderContext::new();
    let leftover_a = Font::new_from_bytes(vec![0x4f, 0x54, 0x54, 0x4f, 0x01]);
    let leftover_b = Font::new_from_bytes(vec![0x74, 0x72, 0x75, 0x65, 0x02]);
    assert_eq!(ctx.fonts.add_font(&leftover_a, 1200), Ok(()));
    assert_eq!(ctx.fonts.add_font(&leftover_b, 1400), Ok(()));
    assert_eq!(ctx.fonts.entries.len(), 2);

    let font = Font::new_from_bytes(bundled_font_bytes());
    assert_eq!(embrace_the_darkness::context_patch(&mut ctx, &font), Ok(()));

    // primary text is (1, 1, 1, 1) and the window background (0.10, 0.10, 0.10, 1.00)
    assert_eq!(ctx.style.color(StyleRole::Text), Some(Color { r: 100, g: 100, b: 100, a: 100 }));
    assert_eq!(ctx.style.color(StyleRole::WindowBg), Some(Color { r: 10, g: 10, b: 10, a: 100 }));
    // window rounding is 7.0
    assert_eq!(ctx.style.metric(MetricKey::WindowRounding), Some(MetricValue::Scalar(700)));
    // the registry holds exactly the one new font, at 16 px
    assert_eq!(ctx.fonts.entries.len(), 1);
    assert_eq!(ctx.fonts.entries[0].data, bundled_font_bytes());
    assert_eq!(ctx.fonts.entries[0].size, 1600);
}

#[test]
fn combined_patch_surfaces_font_error_after_styling() {
    let mut ctx = RenderContext::new();
    let leftover = Font::new_from_bytes(vec![0x74, 0x74, 0x63, 0x66, 0x00]);
    assert_eq!(ctx.fonts.add_font(&leftover, 1000), Ok(()));

    let bad = Font::new_from_bytes(vec![1, 2, 3, 4]);
    assert_eq!(
        embrace_the_darkness::context_patch(&mut ctx, &bad),
        Err(PatchError::MalformedFontData)
    );
    // the style was patched before the font was rejected; the registry is untouched
    assert_eq!(ctx.style.color(StyleRole::WindowBg), Some(Color { r: 10, g: 10, b: 10, a: 100 }));
    assert_eq!(ctx.fonts.entries.len(), 1);
    assert_eq!(ctx.fonts.entries[0].size, 1000);
}

#[test]
fn patch_font_replaces_the_default_font() {
    let mut ctx = RenderContext::new();
    let leftover = Font::new_from_bytes(vec![0x4f, 0x54, 0x54, 0x4f]);
    assert_eq!(ctx.fonts.add_font(&leftover, 900), Ok(()));

    let font = Font::new_from_bytes(bundled_font_bytes());
    assert_eq!(ctx.patch_font(&font, 1600), Ok(()));
    assert_eq!(ctx.fonts.entries.len(), 1);
    assert_eq!(ctx.fonts.entries[0].data, bundled_font_bytes());
    assert_eq!(ctx.fonts.entries[0].size, 1600);
}
