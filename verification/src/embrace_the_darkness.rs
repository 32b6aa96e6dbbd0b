//! The dark theme: a charcoal palette with a light-blue accent. It
//! overrides every color role and every metric.

use vstd::prelude::*;
use crate::context::RenderContext;
use crate::fonts::{font_data_wf, Font, DEFAULT_FONT_SIZE};
use crate::style::{style_wf, zero_style, Color, MetricValue, StyleObject, StyleView};
use crate::theme::{
    apply, col, lemma_patch_deterministic, patched, pr, sc, theme_wf, Theme, ThemeView,
};
use crate::PatchError;

verus! {

/// The theme's table: a color for every role slot and a metric for every
/// metric slot, in slot order. Channels and sizes are in hundredths.
pub open spec fn table() -> ThemeView {
    ThemeView {
        colors: seq![
            col(100, 100, 100, 100),  // text
            col(50, 50, 50, 100),  // text disabled
            col(10, 10, 10, 100),  // window background
            col(0, 0, 0, 0),  // child background
            col(19, 19, 19, 92),  // popup background
            col(19, 19, 19, 29),  // border
            col(0, 0, 0, 24),  // border shadow
            col(5, 5, 5, 54),  // frame background
            col(19, 19, 19, 54),  // frame background hovered
            col(20, 22, 23, 100),  // frame background active
            col(0, 0, 0, 100),  // title background
            col(6, 6, 6, 100),  // title background active
            col(0, 0, 0, 100),  // title background collapsed
            col(14, 14, 14, 100),  // menu bar background
            col(5, 5, 5, 54),  // scrollbar background
            col(34, 34, 34, 54),  // scrollbar grab
            col(40, 40, 40, 54),  // scrollbar grab hovered
            col(56, 56, 56, 54),  // scrollbar grab active
            col(33, 67, 86, 100),  // check mark
            col(34, 34, 34, 54),  // slider grab
            col(56, 56, 56, 54),  // slider grab active
            col(5, 5, 5, 54),  // button
            col(19, 19, 19, 54),  // button hovered
            col(20, 22, 23, 100),  // button active
            col(0, 0, 0, 52),  // header
            col(0, 0, 0, 36),  // header hovered
            col(20, 22, 23, 33),  // header active
            col(28, 28, 28, 29),  // separator
            col(44, 44, 44, 29),  // separator hovered
            col(40, 44, 47, 100),  // separator active
            col(28, 28, 28, 29),  // resize grip
            col(44, 44, 44, 29),  // resize grip hovered
            col(40, 44, 47, 100),  // resize grip active
            col(0, 0, 0, 52),  // tab
            col(14, 14, 14, 100),  // tab hovered
            col(20, 20, 20, 36),  // tab active
            col(0, 0, 0, 52),  // tab unfocused
            col(14, 14, 14, 100),  // tab unfocused active
            col(33, 67, 86, 100),  // docking preview
            col(100, 0, 0, 100),  // docking empty background
            col(100, 0, 0, 100),  // plot lines
            col(100, 0, 0, 100),  // plot lines hovered
            col(100, 0, 0, 100),  // plot histogram
            col(100, 0, 0, 100),  // plot histogram hovered
            col(0, 0, 0, 52),  // table header background
            col(0, 0, 0, 52),  // table border strong
            col(28, 28, 28, 29),  // table border light
            col(0, 0, 0, 0),  // table row background
            col(100, 100, 100, 6),  // table row background alternate
            col(20, 22, 23, 100),  // text selected background
            col(33, 67, 86, 100),  // drag-drop target
            col(100, 0, 0, 100),  // nav highlight
            col(100, 0, 0, 70),  // nav windowing highlight
            col(100, 0, 0, 20),  // nav windowing dim background
            col(100, 0, 0, 35),  // modal window dim background
        ],
        metrics: seq![
            pr(800, 800),  // window padding
            pr(500, 200),  // frame padding
            pr(600, 600),  // item spacing
            pr(600, 600),  // item inner spacing
            pr(0, 0),  // touch extra padding
            sc(2500),  // indent spacing
            sc(1500),  // scrollbar size
            sc(1000),  // grab minimum size
            sc(100),  // window border size
            sc(100),  // child border size
            sc(100),  // popup border size
            sc(100),  // frame border size
            sc(100),  // tab border size
            sc(700),  // window rounding
            sc(400),  // child rounding
            sc(300),  // frame rounding
            sc(400),  // popup rounding
            sc(900),  // scrollbar rounding
            sc(300),  // grab rounding
            sc(400),  // log slider deadzone
            sc(400),  // tab rounding
        ],
    }
}

/// Builds the theme's table as a value that [`apply`] can walk.
#[verifier::rlimit(60)]
pub fn theme() -> (t: Theme)
    ensures
        t@ == table(),
        theme_wf(t@),
{
    let mut colors: Vec<Option<Color>> = Vec::new();
    colors.push(Some(Color::rgba(100, 100, 100, 100)));  // text
    colors.push(Some(Color::rgba(50, 50, 50, 100)));  // text disabled
    colors.push(Some(Color::rgba(10, 10, 10, 100)));  // window background
    colors.push(Some(Color::rgba(0, 0, 0, 0)));  // child background
    colors.push(Some(Color::rgba(19, 19, 19, 92)));  // popup background
    colors.push(Some(Color::rgba(19, 19, 19, 29)));  // border
    colors.push(Some(Color::rgba(0, 0, 0, 24)));  // border shadow
    colors.push(Some(Color::rgba(5, 5, 5, 54)));  // frame background
    colors.push(Some(Color::rgba(19, 19, 19, 54)));  // frame background hovered
    colors.push(Some(Color::rgba(20, 22, 23, 100)));  // frame background active
    colors.push(Some(Color::rgba(0, 0, 0, 100)));  // title background
    colors.push(Some(Color::rgba(6, 6, 6, 100)));  // title background active
    colors.push(Some(Color::rgba(0, 0, 0, 100)));  // title background collapsed
    colors.push(Some(Color::rgba(14, 14, 14, 100)));  // menu bar background
    colors.push(Some(Color::rgba(5, 5, 5, 54)));  // scrollbar background
    colors.push(Some(Color::rgba(34, 34, 34, 54)));  // scrollbar grab
    colors.push(Some(Color::rgba(40, 40, 40, 54)));  // scrollbar grab hovered
    colors.push(Some(Color::rgba(56, 56, 56, 54)));  // scrollbar grab active
    colors.push(Some(Color::rgba(33, 67, 86, 100)));  // check mark
    colors.push(Some(Color::rgba(34, 34, 34, 54)));  // slider grab
    colors.push(Some(Color::rgba(56, 56, 56, 54)));  // slider grab active
    colors.push(Some(Color::rgba(5, 5, 5, 54)));  // button
    colors.push(Some(Color::rgba(19, 19, 19, 54)));  // button hovered
    colors.push(Some(Color::rgba(20, 22, 23, 100)));  // button active
    colors.push(Some(Color::rgba(0, 0, 0, 52)));  // header
    colors.push(Some(Color::rgba(0, 0, 0, 36)));  // header hovered
    colors.push(Some(Color::rgba(20, 22, 23, 33)));  // header active
    colors.push(Some(Color::rgba(28, 28, 28, 29)));  // separator
    colors.push(Some(Color::rgba(44, 44, 44, 29)));  // separator hovered
    colors.push(Some(Color::rgba(40, 44, 47, 100)));  // separator active
    colors.push(Some(Color::rgba(28, 28, 28, 29)));  // resize grip
    colors.push(Some(Color::rgba(44, 44, 44, 29)));  // resize grip hovered
    colors.push(Some(Color::rgba(40, 44, 47, 100)));  // resize grip active
    colors.push(Some(Color::rgba(0, 0, 0, 52)));  // tab
    colors.push(Some(Color::rgba(14, 14, 14, 100)));  // tab hovered
    colors.push(Some(Color::rgba(20, 20, 20, 36)));  // tab active
    colors.push(Some(Color::rgba(0, 0, 0, 52)));  // tab unfocused
    colors.push(Some(Color::rgba(14, 14, 14, 100)));  // tab unfocused active
    colors.push(Some(Color::rgba(33, 67, 86, 100)));  // docking preview
    colors.push(Some(Color::rgba(100, 0, 0, 100)));  // docking empty background
    colors.push(Some(Color::rgba(100, 0, 0, 100)));  // plot lines
    colors.push(Some(Color::rgba(100, 0, 0, 100)));  // plot lines hovered
    colors.push(Some(Color::rgba(100, 0, 0, 100)));  // plot histogram
    colors.push(Some(Color::rgba(100, 0, 0, 100)));  // plot histogram hovered
    colors.push(Some(Color::rgba(0, 0, 0, 52)));  // table header background
    colors.push(Some(Color::rgba(0, 0, 0, 52)));  // table border strong
    colors.push(Some(Color::rgba(28, 28, 28, 29)));  // table border light
    colors.push(Some(Color::rgba(0, 0, 0, 0)));  // table row background
    colors.push(Some(Color::rgba(100, 100, 100, 6)));  // table row background alternate
    colors.push(Some(Color::rgba(20, 22, 23, 100)));  // text selected background
    colors.push(Some(Color::rgba(33, 67, 86, 100)));  // drag-drop target
    colors.push(Some(Color::rgba(100, 0, 0, 100)));  // nav highlight
    colors.push(Some(Color::rgba(100, 0, 0, 70)));  // nav windowing highlight
    colors.push(Some(Color::rgba(100, 0, 0, 20)));  // nav windowing dim background
    colors.push(Some(Color::rgba(100, 0, 0, 35)));  // modal window dim background
    let mut metrics: Vec<Option<MetricValue>> = Vec::new();
    metrics.push(Some(MetricValue::Pair(800, 800)));  // window padding
    metrics.push(Some(MetricValue::Pair(500, 200)));  // frame padding
    metrics.push(Some(MetricValue::Pair(600, 600)));  // item spacing
    metrics.push(Some(MetricValue::Pair(600, 600)));  // item inner spacing
    metrics.push(Some(MetricValue::Pair(0, 0)));  // touch extra padding
    metrics.push(Some(MetricValue::Scalar(2500)));  // indent spacing
    metrics.push(Some(MetricValue::Scalar(1500)));  // scrollbar size
    metrics.push(Some(MetricValue::Scalar(1000)));  // grab minimum size
    metrics.push(Some(MetricValue::Scalar(100)));  // window border size
    metrics.push(Some(MetricValue::Scalar(100)));  // child border size
    metrics.push(Some(MetricValue::Scalar(100)));  // popup border size
    metrics.push(Some(MetricValue::Scalar(100)));  // frame border size
    metrics.push(Some(MetricValue::Scalar(100)));  // tab border size
    metrics.push(Some(MetricValue::Scalar(700)));  // window rounding
    metrics.push(Some(MetricValue::Scalar(400)));  // child rounding
    metrics.push(Some(MetricValue::Scalar(300)));  // frame rounding
    metrics.push(Some(MetricValue::Scalar(400)));  // popup rounding
    metrics.push(Some(MetricValue::Scalar(900)));  // scrollbar rounding
    metrics.push(Some(MetricValue::Scalar(300)));  // grab rounding
    metrics.push(Some(MetricValue::Scalar(400)));  // log slider deadzone
    metrics.push(Some(MetricValue::Scalar(400)));  // tab rounding
    let t = Theme { colors, metrics };
    proof {
        assert(t@.colors =~= table().colors);
        assert(t@.metrics =~= table().metrics);
        assert(t@ =~= table());
    }
    t
}

/// Patches the passed style with this theme's table: every listed slot is
/// overwritten with the table's value, every other slot is untouched.
/// Fails with [`PatchError::ConfigMismatch`], leaving `style` unchanged,
/// exactly when `style` does not have one slot per role and per key.
pub fn style_patch(style: &mut StyleObject) -> (r: Result<(), PatchError>)
    ensures
        r is Ok <==> style_wf(old(style)@),
        r is Ok ==> patched(table(), old(style)@, final(style)@),
        r is Err ==> final(style)@ == old(style)@
            && r == Err::<(), PatchError>(PatchError::ConfigMismatch),
{
    let t = theme();
    apply(&t, style)
}

/// Creates a new style object: the all-zero baseline with this theme
/// applied, so every field is either zero or the theme's explicit
/// override.
pub fn new() -> (s: StyleObject)
    ensures
        style_wf(s@),
        patched(table(), zero_style(), s@),
{
    let mut s = StyleObject::zeroed();
    let r = style_patch(&mut s);
    proof {
        assert(r is Ok);
    }
    s
}

/// Determinism of [`new`]: the constructor's contract pins one result, so
/// any two style objects it may return are equal.
pub proof fn lemma_new_deterministic(a: StyleView, b: StyleView)
    requires
        patched(table(), zero_style(), a),
        patched(table(), zero_style(), b),
    ensures
        a == b,
{
    lemma_patch_deterministic(table(), zero_style(), a, b);
}

/// Patches the style and the font registry of the entire context: the
/// style object receives this theme's table, and `font` becomes the sole
/// registered font at [`DEFAULT_FONT_SIZE`]. The style is patched first;
/// on [`PatchError::ConfigMismatch`] nothing has changed, and on
/// [`PatchError::MalformedFontData`] the style is patched but the registry
/// is untouched.
pub fn context_patch(context: &mut RenderContext, font: &Font) -> (r: Result<(), PatchError>)
    ensures
        r is Ok <==> (style_wf(old(context).style@) && font_data_wf(font@)),
        r is Ok ==> patched(table(), old(context).style@, final(context).style@)
            && final(context).fonts.entries@.len() == 1
            && final(context).fonts.entries@[0].data@ == font@
            && final(context).fonts.entries@[0].size == DEFAULT_FONT_SIZE,
        r == Err::<(), PatchError>(PatchError::ConfigMismatch) <==> !style_wf(
            old(context).style@,
        ),
        r == Err::<(), PatchError>(PatchError::ConfigMismatch) ==> final(context).style@ == old(
            context,
        ).style@ && final(context).fonts.entries@ == old(context).fonts.entries@,
        r == Err::<(), PatchError>(PatchError::MalformedFontData) <==> (style_wf(
            old(context).style@,
        ) && !font_data_wf(font@)),
        r == Err::<(), PatchError>(PatchError::MalformedFontData) ==> patched(
            table(),
            old(context).style@,
            final(context).style@,
        ) && final(context).fonts.entries@ == old(context).fonts.entries@,
{
    match style_patch(&mut context.style) {
        Ok(()) => {},
        Err(e) => {
            return Err(e);
        },
    }
    context.fonts.install_font(font, DEFAULT_FONT_SIZE)
}

} // verus!
