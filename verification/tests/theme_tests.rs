use imgui_styles::dracula;
use imgui_styles::embrace_the_darkness;
use imgui_styles::style::{Color, MetricKey, MetricValue, StyleObject, StyleRole};
use imgui_styles::PatchError;

fn rgba(r: u32, g: u32, b: u32, a: u32) -> Color {
    Color { r, g, b, a }
}

#[test]
fn dark_theme_literal_values() {
    let s = embrace_the_darkness::new();
    assert_eq!(s.color(StyleRole::Text), Some(rgba(100, 100, 100, 100)));
    assert_eq!(s.color(StyleRole::TextDisabled), Some(rgba(50, 50, 50, 100)));
    assert_eq!(s.color(StyleRole::WindowBg), Some(rgba(10, 10, 10, 100)));
    assert_eq!(s.color(StyleRole::ChildBg), Some(rgba(0, 0, 0, 0)));
    assert_eq!(s.color(StyleRole::PopupBg), Some(rgba(19, 19, 19, 92)));
    assert_eq!(s.color(StyleRole::FrameBgActive), Some(rgba(20, 22, 23, 100)));
    assert_eq!(s.color(StyleRole::TitleBgActive), Some(rgba(6, 6, 6, 100)));
    assert_eq!(s.color(StyleRole::CheckMark), Some(rgba(33, 67, 86, 100)));
    assert_eq!(s.color(StyleRole::HeaderHovered), Some(rgba(0, 0, 0, 36)));
    assert_eq!(s.color(StyleRole::SeparatorActive), Some(rgba(40, 44, 47, 100)));
    assert_eq!(s.color(StyleRole::TabActive), Some(rgba(20, 20, 20, 36)));
    assert_eq!(s.color(StyleRole::DockingPreview), Some(rgba(33, 67, 86, 100)));
    assert_eq!(s.color(StyleRole::TableRowBgAlt), Some(rgba(100, 100, 100, 6)));
    assert_eq!(s.color(StyleRole::NavWindowingHighlight), Some(rgba(100, 0, 0, 70)));
    assert_eq!(s.color(StyleRole::ModalWindowDimBg), Some(rgba(100, 0, 0, 35)));
    assert_eq!(s.metric(MetricKey::WindowPadding), Some(MetricValue::Pair(800, 800)));
    assert_eq!(s.metric(MetricKey::FramePadding), Some(MetricValue::Pair(500, 200)));
    assert_eq!(s.metric(MetricKey::ItemSpacing), Some(MetricValue::Pair(600, 600)));
    assert_eq!(s.metric(MetricKey::IndentSpacing), Some(MetricValue::Scalar(2500)));
    assert_eq!(s.metric(MetricKey::ScrollbarSize), Some(MetricValue::Scalar(1500)));
    assert_eq!(s.metric(MetricKey::WindowBorderSize), Some(MetricValue::Scalar(100)));
    assert_eq!(s.metric(MetricKey::WindowRounding), Some(MetricValue::Scalar(700)));
    assert_eq!(s.metric(MetricKey::FrameRounding), Some(MetricValue::Scalar(300)));
    assert_eq!(s.metric(MetricKey::ScrollbarRounding), Some(MetricValue::Scalar(900)));
    assert_eq!(s.metric(MetricKey::LogSliderDeadzone), Some(MetricValue::Scalar(400)));
    assert_eq!(s.metric(MetricKey::TabRounding), Some(MetricValue::Scalar(400)));
}

#[test]
fn dracula_theme_literal_values() {
    let s = dracula::new();
    assert_eq!(s.color(StyleRole::Text), Some(rgba(100, 100, 100, 100)));
    assert_eq!(s.color(StyleRole::WindowBg), Some(rgba(10, 10, 13, 100)));
    assert_eq!(s.color(StyleRole::MenuBarBg), Some(rgba(16, 16, 21, 100)));
    assert_eq!(s.color(StyleRole::Border), Some(rgba(44, 37, 61, 29)));
    assert_eq!(s.color(StyleRole::PopupBg), Some(rgba(10, 10, 13, 92)));
    assert_eq!(s.color(StyleRole::CheckMark), Some(rgba(74, 58, 98, 100)));
    assert_eq!(s.color(StyleRole::SliderGrab), Some(rgba(44, 37, 61, 54)));
    assert_eq!(s.color(StyleRole::FrameBg), Some(rgba(13, 13, 17, 100)));
    assert_eq!(s.color(StyleRole::TabHovered), Some(rgba(24, 24, 32, 100)));
    assert_eq!(s.color(StyleRole::TabActive), Some(rgba(20, 22, 27, 100)));
    assert_eq!(s.color(StyleRole::ScrollbarGrabActive), Some(rgba(24, 24, 32, 100)));
    assert_eq!(s.color(StyleRole::SeparatorActive), Some(rgba(84, 58, 100, 100)));
    assert_eq!(s.color(StyleRole::ResizeGripHovered), Some(rgba(74, 58, 98, 29)));
    assert_eq!(s.color(StyleRole::DockingPreview), Some(rgba(44, 37, 61, 100)));
    assert_eq!(s.metric(MetricKey::TabRounding), Some(MetricValue::Scalar(400)));
    assert_eq!(s.metric(MetricKey::ScrollbarRounding), Some(MetricValue::Scalar(900)));
    assert_eq!(s.metric(MetricKey::WindowRounding), Some(MetricValue::Scalar(700)));
    assert_eq!(s.metric(MetricKey::GrabRounding), Some(MetricValue::Scalar(300)));
    assert_eq!(s.metric(MetricKey::FrameRounding), Some(MetricValue::Scalar(300)));
    assert_eq!(s.metric(MetricKey::PopupRounding), Some(MetricValue::Scalar(400)));
    assert_eq!(s.metric(MetricKey::ChildRounding), Some(MetricValue::Scalar(400)));
}

#[test]
fn dracula_leaves_unlisted_slots_at_baseline() {
    let s = dracula::new();
    // roles and metrics the variant theme does not mention stay all-zero
    assert_eq!(s.color(StyleRole::ChildBg), Some(rgba(0, 0, 0, 0)));
    assert_eq!(s.color(StyleRole::PlotLines), Some(rgba(0, 0, 0, 0)));
    assert_eq!(s.color(StyleRole::NavHighlight), Some(rgba(0, 0, 0, 0)));
    assert_eq!(s.metric(MetricKey::WindowPadding), Some(MetricValue::Pair(0, 0)));
    assert_eq!(s.metric(MetricKey::LogSliderDeadzone), Some(MetricValue::Scalar(0)));
}

#[test]
fn applying_twice_equals_applying_once() {
    let once = embrace_the_darkness::new();
    let mut twice = once.clone();
    let r = embrace_the_darkness::style_patch(&mut twice);
    assert_eq!(r, Ok(()));
    assert_eq!(twice, once);

    let once = dracula::new();
    let mut twice = once.clone();
    let r = dracula::style_patch(&mut twice);
    assert_eq!(r, Ok(()));
    assert_eq!(twice, once);
}

#[test]
fn untouched_roles_keep_sentinel_values() {
    let mut s = StyleObject::zeroed();
    let sentinel = rgba(12, 34, 56, 78);
    assert!(s.set_color(StyleRole::NavHighlight, sentinel));
    assert!(s.set_color(StyleRole::TableHeaderBg, rgba(9, 8, 7, 6)));
    assert!(s.set_metric(MetricKey::WindowPadding, MetricValue::Pair(123, 456)));
    assert!(s.set_metric(MetricKey::IndentSpacing, MetricValue::Scalar(4200)));
    let r = dracula::style_patch(&mut s);
    assert_eq!(r, Ok(()));
    assert_eq!(s.color(StyleRole::NavHighlight), Some(sentinel));
    assert_eq!(s.color(StyleRole::TableHeaderBg), Some(rgba(9, 8, 7, 6)));
    assert_eq!(s.metric(MetricKey::WindowPadding), Some(MetricValue::Pair(123, 456)));
    assert_eq!(s.metric(MetricKey::IndentSpacing), Some(MetricValue::Scalar(4200)));
    // a listed role was overwritten all the same
    assert_eq!(s.color(StyleRole::WindowBg), Some(rgba(10, 10, 13, 100)));
}

#[test]
fn out_of_range_channels_pass_through() {
    // channels above 100 (that is, above 1.0) are neither clamped nor
    // rejected: an untouched slot carries them through unchanged
    let mut s = StyleObject::zeroed();
    assert!(s.set_color(StyleRole::DragDropTarget, rgba(250, 300, 1000, 101)));
    let r = dracula::style_patch(&mut s);
    assert_eq!(r, Ok(()));
    assert_eq!(s.color(StyleRole::DragDropTarget), Some(rgba(250, 300, 1000, 101)));
}

#[test]
fn default_constructor_is_deterministic() {
    let a = embrace_the_darkness::new();
    let b = embrace_the_darkness::new();
    assert_eq!(a, b);
    let a = dracula::new();
    let b = dracula::new();
    assert_eq!(a, b);
}

#[test]
fn mismatched_schema_is_rejected() {
    let mut s = StyleObject {
        colors: vec![Color { r: 0, g: 0, b: 0, a: 0 }; 3],
        metrics: vec![MetricValue::Scalar(0)],
    };
    let before = s.clone();
    let r = embrace_the_darkness::style_patch(&mut s);
    assert_eq!(r, Err(PatchError::ConfigMismatch));
    assert_eq!(s, before);
    let r = dracula::style_patch(&mut s);
    assert_eq!(r, Err(PatchError::ConfigMismatch));
    assert_eq!(s, before);
}
