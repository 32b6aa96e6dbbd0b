//! The variant dark theme: a dark palette with a purple accent. It leaves
//! the plot, table, navigation and drag-drop roles, and most metrics, at
//! whatever the target already holds.

use vstd::prelude::*;
use crate::context::RenderContext;
use crate::fonts::{font_data_wf, Font, DEFAULT_FONT_SIZE};
use crate::style::{style_wf, zero_style, Color, MetricValue, StyleObject, StyleView};
use crate::theme::{
    apply, col, lemma_patch_deterministic, no_color, no_metric, patched, sc, theme_wf, Theme,
    ThemeView,
};
use crate::PatchError;

verus! {

/// The theme's table, in slot order. A `None` slot is a role or metric the
/// theme does not mention. Channels and sizes are in hundredths.
pub open spec fn table() -> ThemeView {
    ThemeView {
        colors: seq![
            col(100, 100, 100, 100),  // text
            col(50, 50, 50, 100),  // text disabled
            col(10, 10, 13, 100),  // window background
            no_color(),  // child background
            col(10, 10, 13, 92),  // popup background
            col(44, 37, 61, 29),  // border
            col(0, 0, 0, 24),  // border shadow
            col(13, 13, 17, 100),  // frame background
            col(19, 20, 25, 100),  // frame background hovered
            col(16, 16, 21, 100),  // frame background active
            col(16, 16, 21, 100),  // title background
            col(16, 16, 21, 100),  // title background active
            col(16, 16, 21, 100),  // title background collapsed
            col(16, 16, 21, 100),  // menu bar background
            col(10, 10, 13, 100),  // scrollbar background
            col(16, 16, 21, 100),  // scrollbar grab
            col(19, 20, 25, 100),  // scrollbar grab hovered
            col(24, 24, 32, 100),  // scrollbar grab active
            col(74, 58, 98, 100),  // check mark
            col(44, 37, 61, 54),  // slider grab
            col(74, 58, 98, 54),  // slider grab active
            col(13, 13, 17, 100),  // button
            col(19, 20, 25, 100),  // button hovered
            col(16, 16, 21, 100),  // button active
            col(13, 13, 17, 100),  // header
            col(19, 20, 25, 100),  // header hovered
            col(16, 16, 21, 100),  // header active
            col(44, 37, 61, 100),  // separator
            col(74, 58, 98, 100),  // separator hovered
            col(84, 58, 100, 100),  // separator active
            col(44, 37, 61, 29),  // resize grip
            col(74, 58, 98, 29),  // resize grip hovered
            col(84, 58, 100, 29),  // resize grip active
            col(16, 16, 21, 100),  // tab
            col(24, 24, 32, 100),  // tab hovered
            col(20, 22, 27, 100),  // tab active
            col(16, 16, 21, 100),  // tab unfocused
            col(16, 16, 21, 100),  // tab unfocused active
            col(44, 37, 61, 100),  // docking preview
            no_color(),  // docking empty background
            no_color(),  // plot lines
            no_color(),  // plot lines hovered
            no_color(),  // plot histogram
            no_color(),  // plot histogram hovered
            no_color(),  // table header background
            no_color(),  // table border strong
            no_color(),  // table border light
            no_color(),  // table row background
            no_color(),  // table row background alternate
            no_color(),  // text selected background
            no_color(),  // drag-drop target
            no_color(),  // nav highlight
            no_color(),  // nav windowing highlight
            no_color(),  // nav windowing dim background
            no_color(),  // modal window dim background
        ],
        metrics: seq![
            no_metric(),  // window padding
            no_metric(),  // frame padding
            no_metric(),  // item spacing
            no_metric(),  // item inner spacing
            no_metric(),  // touch extra padding
            no_metric(),  // indent spacing
            no_metric(),  // scrollbar size
            no_metric(),  // grab minimum size
            no_metric(),  // window border size
            no_metric(),  // child border size
            no_metric(),  // popup border size
            no_metric(),  // frame border size
            no_metric(),  // tab border size
            sc(700),  // window rounding
            sc(400),  // child rounding
            sc(300),  // frame rounding
            sc(400),  // popup rounding
            sc(900),  // scrollbar rounding
            sc(300),  // grab rounding
            no_metric(),  // log slider deadzone
            sc(400),  // tab rounding
        ],
    }
}

/// Builds the theme's table as a value that [`apply`] can walk.
#[verifier::rlimit(60)]
pub fn theme() -> (t: Theme)
    ensures
        t@ == table(),
        theme_wf(t@),
{
    let mut colors: Vec<Option<Color>> = Vec::new();
    colors.push(Some(Color::rgba(100, 100, 100, 100)));  // text
    colors.push(Some(Color::rgba(50, 50, 50, 100)));  // text disabled
    colors.push(Some(Color::rgba(10, 10, 13, 100)));  // window background
    colors.push(None);  // child background
    colors.push(Some(Color::rgba(10, 10, 13, 92)));  // popup background
    colors.push(Some(Color::rgba(44, 37, 61, 29)));  // border
    colors.push(Some(Color::rgba(0, 0, 0, 24)));  // border shadow
    colors.push(Some(Color::rgba(13, 13, 17, 100)));  // frame background
    colors.push(Some(Color::rgba(19, 20, 25, 100)));  // frame background hovered
    colors.push(Some(Color::rgba(16, 16, 21, 100)));  // frame background active
    colors.push(Some(Color::rgba(16, 16, 21, 100)));  // title background
    colors.push(Some(Color::rgba(16, 16, 21, 100)));  // title background active
    colors.push(Some(Color::rgba(16, 16, 21, 100)));  // title background collapsed
    colors.push(Some(Color::rgba(16, 16, 21, 100)));  // menu bar background
    colors.push(Some(Color::rgba(10, 10, 13, 100)));  // scrollbar background
    colors.push(Some(Color::rgba(16, 16, 21, 100)));  // scrollbar grab
    colors.push(Some(Color::rgba(19, 20, 25, 100)));  // scrollbar grab hovered
    colors.push(Some(Color::rgba(24, 24, 32, 100)));  // scrollbar grab active
    colors.push(Some(Color::rgba(74, 58, 98, 100)));  // check mark
    colors.push(Some(Color::rgba(44, 37, 61, 54)));  // slider grab
    colors.push(Some(Color::rgba(74, 58, 98, 54)));  // slider grab active
    colors.push(Some(Color::rgba(13, 13, 17, 100)));  // button
    colors.push(Some(Color::rgba(19, 20, 25, 100)));  // button hovered
    colors.push(Some(Color::rgba(16, 16, 21, 100)));  // button active
    colors.push(Some(Color::rgba(13, 13, 17, 100)));  // header
    colors.push(Some(Color::rgba(19, 20, 25, 100)));  // header hovered
    colors.push(Some(Color::rgba(16, 16, 21, 100)));  // header active
    colors.push(Some(Color::rgba(44, 37, 61, 100)));  // separator
    colors.push(Some(Color::rgba(74, 58, 98, 100)));  // separator hovered
    colors.push(Some(Color::rgba(84, 58, 100, 100)));  // separator active
    colors.push(Some(Color::rgba(44, 37, 61, 29)));  // resize grip
    colors.push(Some(Color::rgba(74, 58, 98, 29)));  // resize grip hovered
    colors.push(Some(Color::rgba(84, 58, 100, 29)));  // resize grip active
    colors.push(Some(Color::rgba(16, 16, 21, 100)));  // tab
    colors.push(Some(Color::rgba(24, 24, 32, 100)));  // tab hovered
    colors.push(Some(Color::rgba(20, 22, 27, 100)));  // tab active
    colors.push(Some(Color::rgba(16, 16, 21, 100)));  // tab unfocused
    colors.push(Some(Color::rgba(16, 16, 21, 100)));  // tab unfocused active
    colors.push(Some(Color::rgba(44, 37, 61, 100)));  // docking preview
    colors.push(None);  // docking empty background
    colors.push(None);  // plot lines
    colors.push(None);  // plot lines hovered
    colors.push(None);  // plot histogram
    colors.push(None);  // plot histogram hovered
    colors.push(None);  // table header background
    colors.push(None);  // table border strong
    colors.push(None);  // table border light
    colors.push(None);  // table row background
    colors.push(None);  // table row background alternate
    colors.push(None);  // text selected background
    colors.push(None);  // drag-drop target
    colors.push(None);  // nav highlight
    colors.push(None);  // nav windowing highlight
    colors.push(None);  // nav windowing dim background
    colors.push(None);  // modal window dim background
    let mut metrics: Vec<Option<MetricValue>> = Vec::new();
    metrics.push(None);  // window padding
    metrics.push(None);  // frame padding
    metrics.push(None);  // item spacing
    metrics.push(None);  // item inner spacing
    metrics.push(None);  // touch extra padding
    metrics.push(None);  // indent spacing
    metrics.push(None);  // scrollbar size
    metrics.push(None);  // grab minimum size
    metrics.push(None);  // window border size
    metrics.push(None);  // child border size
    metrics.push(None);  // popup border size
    metrics.push(None);  // frame border size
    metrics.push(None);  // tab border size
    metrics.push(Some(MetricValue::Scalar(700)));  // window rounding
    metrics.push(Some(MetricValue::Scalar(400)));  // child rounding
    metrics.push(Some(MetricValue::Scalar(300)));  // frame rounding
    metrics.push(Some(MetricValue::Scalar(400)));  // popup rounding
    metrics.push(Some(MetricValue::Scalar(900)));  // scrollbar rounding
    metrics.push(Some(MetricValue::Scalar(300)));  // grab rounding
    metrics.push(None);  // log slider deadzone
    metrics.push(Some(MetricValue::Scalar(400)));  // tab rounding
    let t = Theme { colors, metrics };
    proof {
        assert(t@.colors =~= table().colors);
        assert(t@.metrics =~= table().metrics);
        assert(t@ =~= table());
    }
    t
}

/// Patches the passed style with this theme's table: every listed slot is
/// overwritten with the table's value, every other slot is untouched.
/// Fails with [`PatchError::ConfigMismatch`], leaving `style` unchanged,
/// exactly when `style` does not have one slot per role and per key.
pub fn style_patch(style: &mut StyleObject) -> (r: Result<(), PatchError>)
    ensures
        r is Ok <==> style_wf(old(style)@),
        r is Ok ==> patched(table(), old(style)@, final(style)@),
        r is Err ==> final(style)@ == old(style)@
            && r == Err::<(), PatchError>(PatchError::ConfigMismatch),
{
    let t = theme();
    apply(&t, style)
}

/// Creates a new style object: the all-zero baseline with this theme
/// applied, so every field is either zero or the theme's explicit
/// override.
pub fn new() -> (s: StyleObject)
    ensures
        style_wf(s@),
        patched(table(), zero_style(), s@),
{
    let mut s = StyleObject::zeroed();
    let r = style_patch(&mut s);
    proof {
        assert(r is Ok);
    }
    s
}

/// Determinism of [`new`]: the constructor's contract pins one result, so
/// any two style objects it may return are equal.
pub proof fn lemma_new_deterministic(a: StyleView, b: StyleView)
    requires
        patched(table(), zero_style(), a),
        patched(table(), zero_style(), b),
    ensures
        a == b,
{
    lemma_patch_deterministic(table(), zero_style(), a, b);
}

/// Patches the style and the font registry of the entire context: the
/// style object receives this theme's table, and `font` becomes the sole
/// registered font at [`DEFAULT_FONT_SIZE`]. The style is patched first;
/// on [`PatchError::ConfigMismatch`] nothing has changed, and on
/// [`PatchError::MalformedFontData`] the style is patched but the registry
/// is untouched.
pub fn context_patch(context: &mut RenderContext, font: &Font) -> (r: Result<(), PatchError>)
    ensures
        r is Ok <==> (style_wf(old(context).style@) && font_data_wf(font@)),
        r is Ok ==> patched(table(), old(context).style@, final(context).style@)
            && final(context).fonts.entries@.len() == 1
            && final(context).fonts.entries@[0].data@ == font@
            && final(context).fonts.entries@[0].size == DEFAULT_FONT_SIZE,
        r == Err::<(), PatchError>(PatchError::ConfigMismatch) <==> !style_wf(
            old(context).style@,
        ),
        r == Err::<(), PatchError>(PatchError::ConfigMismatch) ==> final(context).style@ == old(
            context,
        ).style@ && final(context).fonts.entries@ == old(context).fonts.entries@,
        r == Err::<(), PatchError>(PatchError::MalformedFontData) <==> (style_wf(
            old(context).style@,
        ) && !font_data_wf(font@)),
        r == Err::<(), PatchError>(PatchError::MalformedFontData) ==> patched(
            table(),
            old(context).style@,
            final(context).style@,
        ) && final(context).fonts.entries@ == old(context).fonts.entries@,
{
    match style_patch(&mut context.style) {
        Ok(()) => {},
        Err(e) => {
            return Err(e);
        },
    }
    context.fonts.install_font(font, DEFAULT_FONT_SIZE)
}

} // verus!
