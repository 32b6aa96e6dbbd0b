//! Themes and the patch workflow: a theme is a partial table of overrides,
//! and applying it overwrites exactly the slots the table mentions on a
//! caller-owned style object.

use vstd::prelude::*;
use crate::style::{Color, MetricValue, StyleObject, StyleView, ROLE_COUNT, METRIC_COUNT};
use crate::PatchError;

verus! {

/// A theme: one optional color override per role slot and one optional
/// metric override per metric slot. A `None` slot means the theme leaves
/// that slot of the target alone. One slot per role also rules duplicate
/// keys out by construction: a table cannot list a role twice.
pub struct Theme {
    pub colors: Vec<Option<Color>>,
    pub metrics: Vec<Option<MetricValue>>,
}

/// The mathematical content of a theme.
#[verifier::ext_equal]
pub struct ThemeView {
    pub colors: Seq<Option<Color>>,
    pub metrics: Seq<Option<MetricValue>>,
}

impl View for Theme {
    type V = ThemeView;

    open spec fn view(&self) -> ThemeView {
        ThemeView { colors: self.colors@, metrics: self.metrics@ }
    }
}

/// A theme of the expected schema: one slot per role and per key.
pub open spec fn theme_wf(t: ThemeView) -> bool {
    t.colors.len() == ROLE_COUNT && t.metrics.len() == METRIC_COUNT
}

/// A color override entry of a theme table, channels in hundredths.
pub open spec fn col(r: u32, g: u32, b: u32, a: u32) -> Option<Color> {
    Some(Color { r, g, b, a })
}

/// A scalar metric override of a theme table, in hundredths of a pixel.
pub open spec fn sc(v: u32) -> Option<MetricValue> {
    Some(MetricValue::Scalar(v))
}

/// A vector metric override of a theme table, in hundredths of a pixel.
pub open spec fn pr(x: u32, y: u32) -> Option<MetricValue> {
    Some(MetricValue::Pair(x, y))
}

/// An empty color slot of a theme table: the theme leaves the role alone.
pub open spec fn no_color() -> Option<Color> {
    None
}

/// An empty metric slot of a theme table: the theme leaves the key alone.
pub open spec fn no_metric() -> Option<MetricValue> {
    None
}

/// What one slot holds after a patch: the theme's override where the theme
/// has one, the previous value where it does not.
pub open spec fn patched_slot<T>(entry: Option<T>, prev: T) -> T {
    match entry {
        Option::Some(v) => v,
        Option::None => prev,
    }
}

/// Relates a style object before a patch with theme `t` to the object
/// after it: every slot the theme lists holds exactly the theme's value,
/// and every other slot is unchanged.
pub open spec fn patched(t: ThemeView, before: StyleView, after: StyleView) -> bool {
    &&& t.colors.len() == before.colors.len()
    &&& t.metrics.len() == before.metrics.len()
    &&& after.colors.len() == before.colors.len()
    &&& after.metrics.len() == before.metrics.len()
    &&& forall|i: int|
        #![trigger after.colors[i]]
        #![trigger t.colors[i]]
        0 <= i < t.colors.len() ==> after.colors[i] == patched_slot(t.colors[i], before.colors[i])
    &&& forall|i: int|
        #![trigger after.metrics[i]]
        #![trigger t.metrics[i]]
        0 <= i < t.metrics.len() ==> after.metrics[i] == patched_slot(
            t.metrics[i],
            before.metrics[i],
        )
}

/// Patches `target` with `theme`: overwrites every color and metric slot
/// the theme lists with the theme's value and leaves every other slot
/// untouched. Fails with [`PatchError::ConfigMismatch`], leaving `target`
/// unchanged, exactly when the target does not have one slot per entry of
/// the theme's tables (theme and target from mismatched toolkit versions).
pub fn apply(theme: &Theme, target: &mut StyleObject) -> (r: Result<(), PatchError>)
    ensures
        r is Ok <==> (theme@.colors.len() == old(target)@.colors.len()
            && theme@.metrics.len() == old(target)@.metrics.len()),
        r is Ok ==> patched(theme@, old(target)@, final(target)@),
        r is Err ==> final(target)@ == old(target)@
            && r == Err::<(), PatchError>(PatchError::ConfigMismatch),
{
    if theme.colors.len() != target.colors.len() || theme.metrics.len() != target.metrics.len() {
        return Err(PatchError::ConfigMismatch);
    }
    let ncolors = theme.colors.len();
    let mut i: usize = 0;
    while i < ncolors
        invariant
            ncolors == theme.colors@.len(),
            target.colors@.len() == ncolors,
            target.metrics@ == old(target).metrics@,
            i <= ncolors,
            forall|j: int|
                0 <= j < i ==> #[trigger] target.colors@[j] == patched_slot(
                    theme.colors@[j],
                    old(target).colors@[j],
                ),
            forall|j: int| i <= j < ncolors ==> #[trigger] target.colors@[j] == old(
                target,
            ).colors@[j],
        decreases ncolors - i,
    {
        match theme.colors[i] {
            Some(c) => {
                target.colors.set(i, c);
            },
            None => {},
        }
        i += 1;
    }
    let nmetrics = theme.metrics.len();
    let ghost colors_done = target.colors@;
    let mut k: usize = 0;
    while k < nmetrics
        invariant
            nmetrics == theme.metrics@.len(),
            target.metrics@.len() == nmetrics,
            target.colors@ == colors_done,
            k <= nmetrics,
            forall|j: int|
                0 <= j < k ==> #[trigger] target.metrics@[j] == patched_slot(
                    theme.metrics@[j],
                    old(target).metrics@[j],
                ),
            forall|j: int| k <= j < nmetrics ==> #[trigger] target.metrics@[j] == old(
                target,
            ).metrics@[j],
        decreases nmetrics - k,
    {
        match theme.metrics[k] {
            Some(m) => {
                target.metrics.set(k, m);
            },
            None => {},
        }
        k += 1;
    }
    Ok(())
}

/// Partiality: a slot the theme does not mention holds, after the patch,
/// exactly the value it held before it.
pub proof fn lemma_patch_partial(t: ThemeView, before: StyleView, after: StyleView)
    requires
        patched(t, before, after),
    ensures
        forall|i: int|
            0 <= i < t.colors.len() && t.colors[i] is None ==> after.colors[i]
                == before.colors[i],
        forall|i: int|
            0 <= i < t.metrics.len() && t.metrics[i] is None ==> after.metrics[i]
                == before.metrics[i],
{
}

/// Completeness: every slot the theme lists holds, after the patch, exactly
/// the value the theme's table gives for it.
pub proof fn lemma_patch_complete(t: ThemeView, before: StyleView, after: StyleView)
    requires
        patched(t, before, after),
    ensures
        forall|i: int|
            0 <= i < t.colors.len() && t.colors[i] is Some ==> after.colors[i] == t.colors[i]->0,
        forall|i: int|
            0 <= i < t.metrics.len() && t.metrics[i] is Some ==> after.metrics[i]
                == t.metrics[i]->0,
{
}

/// Idempotence: a second application of the same theme changes nothing.
/// `s1` is some object `s0` patched with `t`, and `s2` is `s1` patched with
/// `t` again; then `s2` is `s1`.
pub proof fn lemma_patch_idempotent(t: ThemeView, s0: StyleView, s1: StyleView, s2: StyleView)
    requires
        patched(t, s0, s1),
        patched(t, s1, s2),
    ensures
        s2 == s1,
{
    assert forall|i: int| 0 <= i < s1.colors.len() implies s2.colors[i] == s1.colors[i] by {
        assert(s1.colors[i] == patched_slot(t.colors[i], s0.colors[i]));
        assert(s2.colors[i] == patched_slot(t.colors[i], s1.colors[i]));
    }
    assert forall|i: int| 0 <= i < s1.metrics.len() implies s2.metrics[i] == s1.metrics[i] by {
        assert(s1.metrics[i] == patched_slot(t.metrics[i], s0.metrics[i]));
        assert(s2.metrics[i] == patched_slot(t.metrics[i], s1.metrics[i]));
    }
    assert(s2.colors =~= s1.colors);
    assert(s2.metrics =~= s1.metrics);
    assert(s2 =~= s1);
}

/// Determinism: from the same starting object, the same theme yields the
/// same result. The outcome of a patch depends only on the initial state
/// and the theme, never on history or anything else.
pub proof fn lemma_patch_deterministic(t: ThemeView, s: StyleView, a: StyleView, b: StyleView)
    requires
        patched(t, s, a),
        patched(t, s, b),
    ensures
        a == b,
{
    assert forall|i: int| 0 <= i < a.colors.len() implies a.colors[i] == b.colors[i] by {
        assert(a.colors[i] == patched_slot(t.colors[i], s.colors[i]));
        assert(b.colors[i] == patched_slot(t.colors[i], s.colors[i]));
    }
    assert forall|i: int| 0 <= i < a.metrics.len() implies a.metrics[i] == b.metrics[i] by {
        assert(a.metrics[i] == patched_slot(t.metrics[i], s.metrics[i]));
        assert(b.metrics[i] == patched_slot(t.metrics[i], s.metrics[i]));
    }
    assert(a.colors =~= b.colors);
    assert(a.metrics =~= b.metrics);
    assert(a =~= b);
}

} // verus!
