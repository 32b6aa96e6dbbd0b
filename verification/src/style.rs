//! The integer model of the toolkit's style object: colors and layout
//! metrics, both stored in hundredths so that the verified logic stays in
//! integer arithmetic. The adapter that owns the real toolkit converts a
//! stored value `v` to the toolkit's floating-point `v / 100`.

use vstd::prelude::*;

verus! {

/// Number of color slots in a style object, one per [`StyleRole`].
pub const ROLE_COUNT: usize = 55;

/// Number of metric slots in a style object, one per [`MetricKey`].
pub const METRIC_COUNT: usize = 21;

/// Number of leading metric slots that hold a two-component vector; the
/// remaining slots hold scalars.
pub const PAIR_METRIC_COUNT: usize = 5;

/// An RGBA color. Each channel is stored in hundredths of the conventional
/// `[0, 1]` intensity range: 100 stands for 1.00 and 10 for 0.10.
/// Out-of-range channels are carried through unchanged; nothing here clamps.
#[derive(Clone, Copy, Debug, PartialEq, Eq, Structural)]
pub struct Color {
    pub r: u32,
    pub g: u32,
    pub b: u32,
    pub a: u32,
}

impl Color {
    /// Builds a color from its four channels, each in hundredths.
    pub fn rgba(r: u32, g: u32, b: u32, a: u32) -> (c: Color)
        ensures
            c == (Color { r, g, b, a }),
    {
        Color { r, g, b, a }
    }
}

/// The color every slot of the all-zero style object holds.
pub open spec fn zero_color() -> Color {
    Color { r: 0, g: 0, b: 0, a: 0 }
}

/// A layout metric: either a scalar (a rounding radius, a border width) or
/// a two-component vector (a padding or a spacing). Values are stored in
/// hundredths of a pixel: 700 stands for 7.00 px.
#[derive(Clone, Copy, Debug, PartialEq, Eq, Structural)]
pub enum MetricValue {
    Scalar(u32),
    Pair(u32, u32),
}

/// The semantic style roles a theme may color, in the order of their slots
/// in the color table. The set is fixed by the GUI toolkit's vocabulary,
/// not by this library.
#[derive(Clone, Copy, Debug, PartialEq, Eq, Structural)]
pub enum StyleRole {
    Text,
    TextDisabled,
    WindowBg,
    ChildBg,
    PopupBg,
    Border,
    BorderShadow,
    FrameBg,
    FrameBgHovered,
    FrameBgActive,
    TitleBg,
    TitleBgActive,
    TitleBgCollapsed,
    MenuBarBg,
    ScrollbarBg,
    ScrollbarGrab,
    ScrollbarGrabHovered,
    ScrollbarGrabActive,
    CheckMark,
    SliderGrab,
    SliderGrabActive,
    Button,
    ButtonHovered,
    ButtonActive,
    Header,
    HeaderHovered,
    HeaderActive,
    Separator,
    SeparatorHovered,
    SeparatorActive,
    ResizeGrip,
    ResizeGripHovered,
    ResizeGripActive,
    Tab,
    TabHovered,
    TabActive,
    TabUnfocused,
    TabUnfocusedActive,
    DockingPreview,
    DockingEmptyBg,
    PlotLines,
    PlotLinesHovered,
    PlotHistogram,
    PlotHistogramHovered,
    TableHeaderBg,
    TableBorderStrong,
    TableBorderLight,
    TableRowBg,
    TableRowBgAlt,
    TextSelectedBg,
    DragDropTarget,
    NavHighlight,
    NavWindowingHighlight,
    NavWindowingDimBg,
    ModalWindowDimBg,
}

/// The color-table slot that belongs to `role`.
pub open spec fn role_slot(role: StyleRole) -> int {
    match role {
        StyleRole::Text => 0,
        StyleRole::TextDisabled => 1,
        StyleRole::WindowBg => 2,
        StyleRole::ChildBg => 3,
        StyleRole::PopupBg => 4,
        StyleRole::Border => 5,
        StyleRole::BorderShadow => 6,
        StyleRole::FrameBg => 7,
        StyleRole::FrameBgHovered => 8,
        StyleRole::FrameBgActive => 9,
        StyleRole::TitleBg => 10,
        StyleRole::TitleBgActive => 11,
        StyleRole::TitleBgCollapsed => 12,
        StyleRole::MenuBarBg => 13,
        StyleRole::ScrollbarBg => 14,
        StyleRole::ScrollbarGrab => 15,
        StyleRole::ScrollbarGrabHovered => 16,
        StyleRole::ScrollbarGrabActive => 17,
        StyleRole::CheckMark => 18,
        StyleRole::SliderGrab => 19,
        StyleRole::SliderGrabActive => 20,
        StyleRole::Button => 21,
        StyleRole::ButtonHovered => 22,
        StyleRole::ButtonActive => 23,
        StyleRole::Header => 24,
        StyleRole::HeaderHovered => 25,
        StyleRole::HeaderActive => 26,
        StyleRole::Separator => 27,
        StyleRole::SeparatorHovered => 28,
        StyleRole::SeparatorActive => 29,
        StyleRole::ResizeGrip => 30,
        StyleRole::ResizeGripHovered => 31,
        StyleRole::ResizeGripActive => 32,
        StyleRole::Tab => 33,
        StyleRole::TabHovered => 34,
        StyleRole::TabActive => 35,
        StyleRole::TabUnfocused => 36,
        StyleRole::TabUnfocusedActive => 37,
        StyleRole::DockingPreview => 38,
        StyleRole::DockingEmptyBg => 39,
        StyleRole::PlotLines => 40,
        StyleRole::PlotLinesHovered => 41,
        StyleRole::PlotHistogram => 42,
        StyleRole::PlotHistogramHovered => 43,
        StyleRole::TableHeaderBg => 44,
        StyleRole::TableBorderStrong => 45,
        StyleRole::TableBorderLight => 46,
        StyleRole::TableRowBg => 47,
        StyleRole::TableRowBgAlt => 48,
        StyleRole::TextSelectedBg => 49,
        StyleRole::DragDropTarget => 50,
        StyleRole::NavHighlight => 51,
        StyleRole::NavWindowingHighlight => 52,
        StyleRole::NavWindowingDimBg => 53,
        StyleRole::ModalWindowDimBg => 54,
    }
}

/// Returns the color-table slot that belongs to `role`.
pub fn role_index(role: StyleRole) -> (i: usize)
    ensures
        i == role_slot(role),
        i < ROLE_COUNT,
{
    match role {
        StyleRole::Text => 0,
        StyleRole::TextDisabled => 1,
        StyleRole::WindowBg => 2,
        StyleRole::ChildBg => 3,
        StyleRole::PopupBg => 4,
        StyleRole::Border => 5,
        StyleRole::BorderShadow => 6,
        StyleRole::FrameBg => 7,
        StyleRole::FrameBgHovered => 8,
        StyleRole::FrameBgActive => 9,
        StyleRole::TitleBg => 10,
        StyleRole::TitleBgActive => 11,
        StyleRole::TitleBgCollapsed => 12,
        StyleRole::MenuBarBg => 13,
        StyleRole::ScrollbarBg => 14,
        StyleRole::ScrollbarGrab => 15,
        StyleRole::ScrollbarGrabHovered => 16,
        StyleRole::ScrollbarGrabActive => 17,
        StyleRole::CheckMark => 18,
        StyleRole::SliderGrab => 19,
        StyleRole::SliderGrabActive => 20,
        StyleRole::Button => 21,
        StyleRole::ButtonHovered => 22,
        StyleRole::ButtonActive => 23,
        StyleRole::Header => 24,
        StyleRole::HeaderHovered => 25,
        StyleRole::HeaderActive => 26,
        StyleRole::Separator => 27,
        StyleRole::SeparatorHovered => 28,
        StyleRole::SeparatorActive => 29,
        StyleRole::ResizeGrip => 30,
        StyleRole::ResizeGripHovered => 31,
        StyleRole::ResizeGripActive => 32,
        StyleRole::Tab => 33,
        StyleRole::TabHovered => 34,
        StyleRole::TabActive => 35,
        StyleRole::TabUnfocused => 36,
        StyleRole::TabUnfocusedActive => 37,
        StyleRole::DockingPreview => 38,
        StyleRole::DockingEmptyBg => 39,
        StyleRole::PlotLines => 40,
        StyleRole::PlotLinesHovered => 41,
        StyleRole::PlotHistogram => 42,
        StyleRole::PlotHistogramHovered => 43,
        StyleRole::TableHeaderBg => 44,
        StyleRole::TableBorderStrong => 45,
        StyleRole::TableBorderLight => 46,
        StyleRole::TableRowBg => 47,
        StyleRole::TableRowBgAlt => 48,
        StyleRole::TextSelectedBg => 49,
        StyleRole::DragDropTarget => 50,
        StyleRole::NavHighlight => 51,
        StyleRole::NavWindowingHighlight => 52,
        StyleRole::NavWindowingDimBg => 53,
        StyleRole::ModalWindowDimBg => 54,
    }
}

/// The named layout metrics a theme may override, in the order of their
/// slots in the metric table. The first [`PAIR_METRIC_COUNT`] keys hold
/// two-component vectors; the rest hold scalars.
#[derive(Clone, Copy, Debug, PartialEq, Eq, Structural)]
pub enum MetricKey {
    WindowPadding,
    FramePadding,
    ItemSpacing,
    ItemInnerSpacing,
    TouchExtraPadding,
    IndentSpacing,
    ScrollbarSize,
    GrabMinSize,
    WindowBorderSize,
    ChildBorderSize,
    PopupBorderSize,
    FrameBorderSize,
    TabBorderSize,
    WindowRounding,
    ChildRounding,
    FrameRounding,
    PopupRounding,
    ScrollbarRounding,
    GrabRounding,
    LogSliderDeadzone,
    TabRounding,
}

/// The metric-table slot that belongs to `key`.
pub open spec fn metric_slot(key: MetricKey) -> int {
    match key {
        MetricKey::WindowPadding => 0,
        MetricKey::FramePadding => 1,
        MetricKey::ItemSpacing => 2,
        MetricKey::ItemInnerSpacing => 3,
        MetricKey::TouchExtraPadding => 4,
        MetricKey::IndentSpacing => 5,
        MetricKey::ScrollbarSize => 6,
        MetricKey::GrabMinSize => 7,
        MetricKey::WindowBorderSize => 8,
        MetricKey::ChildBorderSize => 9,
        MetricKey::PopupBorderSize => 10,
        MetricKey::FrameBorderSize => 11,
        MetricKey::TabBorderSize => 12,
        MetricKey::WindowRounding => 13,
        MetricKey::ChildRounding => 14,
        MetricKey::FrameRounding => 15,
        MetricKey::PopupRounding => 16,
        MetricKey::ScrollbarRounding => 17,
        MetricKey::GrabRounding => 18,
        MetricKey::LogSliderDeadzone => 19,
        MetricKey::TabRounding => 20,
    }
}

/// Returns the metric-table slot that belongs to `key`.
pub fn metric_index(key: MetricKey) -> (i: usize)
    ensures
        i == metric_slot(key),
        i < METRIC_COUNT,
{
    match key {
        MetricKey::WindowPadding => 0,
        MetricKey::FramePadding => 1,
        MetricKey::ItemSpacing => 2,
        MetricKey::ItemInnerSpacing => 3,
        MetricKey::TouchExtraPadding => 4,
        MetricKey::IndentSpacing => 5,
        MetricKey::ScrollbarSize => 6,
        MetricKey::GrabMinSize => 7,
        MetricKey::WindowBorderSize => 8,
        MetricKey::ChildBorderSize => 9,
        MetricKey::PopupBorderSize => 10,
        MetricKey::FrameBorderSize => 11,
        MetricKey::TabBorderSize => 12,
        MetricKey::WindowRounding => 13,
        MetricKey::ChildRounding => 14,
        MetricKey::FrameRounding => 15,
        MetricKey::PopupRounding => 16,
        MetricKey::ScrollbarRounding => 17,
        MetricKey::GrabRounding => 18,
        MetricKey::LogSliderDeadzone => 19,
        MetricKey::TabRounding => 20,
    }
}

/// The mathematical content of a style object: its color table and its
/// metric table.
#[verifier::ext_equal]
pub struct StyleView {
    pub colors: Seq<Color>,
    pub metrics: Seq<MetricValue>,
}

/// A style object as this library models it: one color slot per role and
/// one metric slot per key. The adapter owning the real toolkit copies
/// these slots onto the toolkit's style structure.
#[derive(Clone, Debug, PartialEq, Eq)]
pub struct StyleObject {
    pub colors: Vec<Color>,
    pub metrics: Vec<MetricValue>,
}

impl View for StyleObject {
    type V = StyleView;

    open spec fn view(&self) -> StyleView {
        StyleView { colors: self.colors@, metrics: self.metrics@ }
    }
}

/// A style object of the expected schema: one slot per role and per key.
pub open spec fn style_wf(s: StyleView) -> bool {
    s.colors.len() == ROLE_COUNT && s.metrics.len() == METRIC_COUNT
}

/// The metric an all-zero style object holds in slot `i`: a zero vector in
/// the vector slots, a zero scalar in the rest.
pub open spec fn zero_metric(i: int) -> MetricValue {
    if i < PAIR_METRIC_COUNT {
        MetricValue::Pair(0, 0)
    } else {
        MetricValue::Scalar(0)
    }
}

/// The all-zero baseline style object.
pub open spec fn zero_style() -> StyleView {
    StyleView {
        colors: Seq::new(ROLE_COUNT as nat, |i: int| zero_color()),
        metrics: Seq::new(METRIC_COUNT as nat, |i: int| zero_metric(i)),
    }
}

impl StyleObject {
    /// Builds the all-zero style object: every color channel and every
    /// metric zero. This is the baseline the default-object constructors
    /// start from.
    pub fn zeroed() -> (s: StyleObject)
        ensures
            s@ == zero_style(),
            style_wf(s@),
    {
        let mut colors: Vec<Color> = Vec::new();
        let mut i: usize = 0;
        while i < ROLE_COUNT
            invariant
                i <= ROLE_COUNT,
                colors@.len() == i,
                forall|j: int| 0 <= j < i ==> colors@[j] == zero_color(),
            decreases ROLE_COUNT - i,
        {
            colors.push(Color::rgba(0, 0, 0, 0));
            i += 1;
        }
        let mut metrics: Vec<MetricValue> = Vec::new();
        let mut k: usize = 0;
        while k < METRIC_COUNT
            invariant
                k <= METRIC_COUNT,
                metrics@.len() == k,
                forall|j: int| 0 <= j < k ==> metrics@[j] == zero_metric(j),
            decreases METRIC_COUNT - k,
        {
            if k < PAIR_METRIC_COUNT {
                metrics.push(MetricValue::Pair(0, 0));
            } else {
                metrics.push(MetricValue::Scalar(0));
            }
            k += 1;
        }
        let s = StyleObject { colors, metrics };
        proof {
            assert(s@.colors =~= zero_style().colors);
            assert(s@.metrics =~= zero_style().metrics);
            assert(s@ =~= zero_style());
        }
        s
    }

    /// Reads the color slot of `role`, or `None` when the object has no
    /// slot for it.
    pub fn color(&self, role: StyleRole) -> (c: Option<Color>)
        ensures
            c == (if role_slot(role) < self@.colors.len() {
                Some(self@.colors[role_slot(role)])
            } else {
                None::<Color>
            }),
    {
        let i = role_index(role);
        if i < self.colors.len() {
            Some(self.colors[i])
        } else {
            None
        }
    }

    /// Reads the metric slot of `key`, or `None` when the object has no
    /// slot for it.
    pub fn metric(&self, key: MetricKey) -> (m: Option<MetricValue>)
        ensures
            m == (if metric_slot(key) < self@.metrics.len() {
                Some(self@.metrics[metric_slot(key)])
            } else {
                None::<MetricValue>
            }),
    {
        let i = metric_index(key);
        if i < self.metrics.len() {
            Some(self.metrics[i])
        } else {
            None
        }
    }

    /// Overwrites the color slot of `role`. Returns `false` and leaves the
    /// object unchanged when it has no slot for the role.
    pub fn set_color(&mut self, role: StyleRole, c: Color) -> (ok: bool)
        ensures
            ok <==> role_slot(role) < old(self)@.colors.len(),
            ok ==> final(self)@.colors == old(self)@.colors.update(role_slot(role), c)
                && final(self)@.metrics == old(self)@.metrics,
            !ok ==> final(self)@ == old(self)@,
    {
        let i = role_index(role);
        if i < self.colors.len() {
            self.colors.set(i, c);
            true
        } else {
            false
        }
    }

    /// Overwrites the metric slot of `key`. Returns `false` and leaves the
    /// object unchanged when it has no slot for the key.
    pub fn set_metric(&mut self, key: MetricKey, m: MetricValue) -> (ok: bool)
        ensures
            ok <==> metric_slot(key) < old(self)@.metrics.len(),
            ok ==> final(self)@.metrics == old(self)@.metrics.update(metric_slot(key), m)
                && final(self)@.colors == old(self)@.colors,
            !ok ==> final(self)@ == old(self)@,
    {
        let i = metric_index(key);
        if i < self.metrics.len() {
            self.metrics.set(i, m);
            true
        } else {
            false
        }
    }
}

} // verus!
