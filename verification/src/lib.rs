//! Preset visual themes for an immediate-mode GUI toolkit: constant color
//! and metric tables, a workflow that patches them onto a caller-owned
//! style object, and a font-installation workflow for the caller's font
//! registry.
//!
//! The toolkit's own style and font-atlas types live entirely in
//! floating-point; this library works on an integer model of that data
//! (every value in hundredths), and a thin unverified adapter converts the
//! model into the toolkit's types.

use vstd::prelude::*;

pub mod style;
pub mod theme;
pub mod fonts;
pub mod context;
pub mod embrace_the_darkness;
pub mod dracula;

verus! {

/// Why a patch call failed. Both conditions concern fixed, compile-time
/// data, so they are unreachable in normal use; they exist so that a broken
/// build surfaces an error instead of failing silently.
#[derive(Clone, Copy, Debug, PartialEq, Eq, Structural)]
pub enum PatchError {
    /// The target object does not have a slot for every entry the theme
    /// lists: theme and target come from mismatched toolkit versions.
    ConfigMismatch,
    /// The font bytes do not begin like a font file, so the rasterizer
    /// would reject them.
    MalformedFontData,
}

} // verus!
