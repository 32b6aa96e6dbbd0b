//! Font assets and the model of the toolkit's font registry. Installing a
//! font is destructive and total: the registry is assumed to be owned
//! wholly by this library, so whatever the caller registered before is
//! discarded, not merged.

use vstd::prelude::*;
use crate::PatchError;

verus! {

/// The pixel size at which the combined context patch installs its font,
/// in hundredths of a pixel (16.00 px).
pub const DEFAULT_FONT_SIZE: u32 = 1600;

/// A font asset: the raw bytes of a TrueType/OpenType font file.
pub struct Font {
    bytes: Vec<u8>,
}

impl View for Font {
    type V = Seq<u8>;

    closed spec fn view(&self) -> Seq<u8> {
        self.bytes@
    }
}

/// Whether a byte string begins like an sfnt font file: the TrueType
/// version tag 0x00010000, the CFF tag `OTTO`, the legacy tag `true`, or
/// the collection tag `ttcf`. This is the header check a rasterizer makes
/// before anything else; it stands here for the rasterizer's validation of
/// the fixed, build-time font resource.
pub open spec fn font_data_wf(b: Seq<u8>) -> bool {
    b.len() >= 4 && {
        ||| (b[0] == 0x00u8 && b[1] == 0x01u8 && b[2] == 0x00u8 && b[3] == 0x00u8)
        ||| (b[0] == 0x4fu8 && b[1] == 0x54u8 && b[2] == 0x54u8 && b[3] == 0x4fu8)
        ||| (b[0] == 0x74u8 && b[1] == 0x72u8 && b[2] == 0x75u8 && b[3] == 0x65u8)
        ||| (b[0] == 0x74u8 && b[1] == 0x74u8 && b[2] == 0x63u8 && b[3] == 0x66u8)
    }
}

impl Font {
    /// Creates a new `Font` object from the font data passed.
    pub fn new_from_bytes(bytes: Vec<u8>) -> (f: Font)
        ensures
            f@ == bytes@,
    {
        Font { bytes }
    }

    /// The raw bytes of the font file.
    pub fn data(&self) -> (d: &Vec<u8>)
        ensures
            d@ == self@,
    {
        &self.bytes
    }

    /// Checks whether the asset's bytes begin like a font file.
    pub fn is_well_formed(&self) -> (ok: bool)
        ensures
            ok == font_data_wf(self@),
    {
        if self.bytes.len() < 4 {
            return false;
        }
        let b0 = self.bytes[0];
        let b1 = self.bytes[1];
        let b2 = self.bytes[2];
        let b3 = self.bytes[3];
        (b0 == 0x00 && b1 == 0x01 && b2 == 0x00 && b3 == 0x00) || (b0 == 0x4f && b1 == 0x54 && b2
            == 0x54 && b3 == 0x4f) || (b0 == 0x74 && b1 == 0x72 && b2 == 0x75 && b3 == 0x65) || (b0
            == 0x74 && b1 == 0x74 && b2 == 0x63 && b3 == 0x66)
    }
}

/// One slot of a font registry: a font's bytes and the pixel size it was
/// registered at, in hundredths of a pixel.
pub struct InstalledFont {
    pub data: Vec<u8>,
    pub size: u32,
}

/// The library's model of the toolkit's font registry: the registered
/// fonts in registration order. The adapter owning the real toolkit
/// mirrors these slots into the toolkit's font atlas.
pub struct FontRegistry {
    pub entries: Vec<InstalledFont>,
}

impl FontRegistry {
    /// An empty registry.
    pub fn new() -> (reg: FontRegistry)
        ensures
            reg.entries@.len() == 0,
    {
        FontRegistry { entries: Vec::new() }
    }

    /// Discards every registered font.
    pub fn clear(&mut self)
        ensures
            final(self).entries@.len() == 0,
    {
        self.entries.clear();
    }

    /// Registers `font` at `size` behind the fonts already present.
    /// Fails with [`PatchError::MalformedFontData`], leaving the registry
    /// unchanged, exactly when the bytes do not begin like a font file.
    pub fn add_font(&mut self, font: &Font, size: u32) -> (r: Result<(), PatchError>)
        requires
            size > 0,
        ensures
            r is Ok <==> font_data_wf(font@),
            r is Ok ==> final(self).entries@.len() == old(self).entries@.len() + 1
                && final(self).entries@.last().data@ == font@
                && final(self).entries@.last().size == size
                && forall|i: int|
                    0 <= i < old(self).entries@.len() ==> final(self).entries@[i] == old(
                        self,
                    ).entries@[i],
            r is Err ==> final(self).entries@ == old(self).entries@
                && r == Err::<(), PatchError>(PatchError::MalformedFontData),
    {
        if !font.is_well_formed() {
            return Err(PatchError::MalformedFontData);
        }
        let data = font.bytes.clone();
        proof {
            assert forall|i: int| 0 <= i < data@.len() implies data@[i] == font.bytes@[i] by {
                assert(cloned::<u8>(font.bytes[i], data[i]));
            }
            assert(data@ =~= font.bytes@);
        }
        self.entries.push(InstalledFont { data, size });
        Ok(())
    }

    /// Installs `font` as the sole registered font, at `size` hundredths of
    /// a pixel. Destructive and total: every font registered before is
    /// discarded, not merged — the library assumes it owns the whole
    /// registry. Fails with [`PatchError::MalformedFontData`], leaving the
    /// registry unchanged, exactly when the bytes do not begin like a font
    /// file.
    pub fn install_font(&mut self, font: &Font, size: u32) -> (r: Result<(), PatchError>)
        requires
            size > 0,
        ensures
            r is Ok <==> font_data_wf(font@),
            r is Ok ==> final(self).entries@.len() == 1
                && final(self).entries@[0].data@ == font@
                && final(self).entries@[0].size == size,
            r is Err ==> final(self).entries@ == old(self).entries@
                && r == Err::<(), PatchError>(PatchError::MalformedFontData),
    {
        if !font.is_well_formed() {
            return Err(PatchError::MalformedFontData);
        }
        self.clear();
        self.add_font(font, size)
    }
}

} // verus!
