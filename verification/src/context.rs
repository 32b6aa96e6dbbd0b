//! The render context as this library models it: the style object and the
//! font registry that a combined patch touches, and the capability of
//! having one's default font replaced.

use vstd::prelude::*;
use crate::fonts::{font_data_wf, Font, FontRegistry, InstalledFont};
use crate::style::{zero_style, StyleObject};
use crate::PatchError;

verus! {

/// The implementor allows its default font to be replaced.
pub trait FontPatchable {
    /// The fonts currently registered, in registration order.
    spec fn installed_fonts(&self) -> Seq<InstalledFont>;

    /// Sets the passed font as the sole default font, at
    /// `size_in_centipixels` hundredths of a pixel, discarding every font
    /// registered before. Fails with [`PatchError::MalformedFontData`],
    /// changing nothing, exactly when the bytes do not begin like a font
    /// file.
    fn patch_font(&mut self, font: &Font, size_in_centipixels: u32) -> (r: Result<
        (),
        PatchError,
    >)
        requires
            size_in_centipixels > 0,
        ensures
            r is Ok <==> font_data_wf(font@),
            r is Ok ==> final(self).installed_fonts().len() == 1
                && final(self).installed_fonts()[0].data@ == font@
                && final(self).installed_fonts()[0].size == size_in_centipixels,
            r is Err ==> final(self).installed_fonts() == old(self).installed_fonts()
                && r == Err::<(), PatchError>(PatchError::MalformedFontData),
    ;
}

/// A render context: the style object and the font registry that the
/// combined patch writes into. The adapter owning the real toolkit copies
/// both onto the toolkit's context.
pub struct RenderContext {
    pub style: StyleObject,
    pub fonts: FontRegistry,
}

impl RenderContext {
    /// A context holding the all-zero style object and an empty registry.
    pub fn new() -> (ctx: RenderContext)
        ensures
            ctx.style@ == zero_style(),
            ctx.fonts.entries@.len() == 0,
    {
        RenderContext { style: StyleObject::zeroed(), fonts: FontRegistry::new() }
    }
}

impl FontPatchable for RenderContext {
    open spec fn installed_fonts(&self) -> Seq<InstalledFont> {
        self.fonts.entries@
    }

    fn patch_font(&mut self, font: &Font, size_in_centipixels: u32) -> (r: Result<
        (),
        PatchError,
    >) {
        self.fonts.install_font(font, size_in_centipixels)
    }
}

} // verus!
