//! The tray icon's pixel data: a decoded RGBA8 buffer whose size is checked
//! against its dimensions before it is handed to the tray builder. A failure
//! to produce a well-formed icon is fatal at startup: the application cannot
//! present without a tray icon.

use vstd::prelude::*;

verus! {

/// A decoded icon: an RGBA8 pixel buffer and its dimensions, with four
/// bytes per pixel.
pub struct RgbaIcon {
    /// Raw pixel data, four bytes (red, green, blue, alpha) per pixel.
    pub rgba: Vec<u8>,
    /// Width in pixels.
    pub width: u32,
    /// Height in pixels.
    pub height: u32,
}

impl RgbaIcon {
    /// The buffer holds exactly four bytes for each of the
    /// `width * height` pixels.
    pub open spec fn wf(&self) -> bool {
        self.rgba@.len() == 4 * (self.width as int) * (self.height as int)
    }

    /// Builds an icon from a pixel buffer and its claimed dimensions,
    /// exactly when the buffer's size is coherent with them.
    pub fn from_parts(rgba: Vec<u8>, width: u32, height: u32) -> (r: Option<Self>)
        ensures
            r is Some <==> rgba@.len() == 4 * (width as int) * (height as int),
            match r {
                Option::Some(icon) => icon.wf() && icon.rgba@ == rgba@ && icon.width == width
                    && icon.height == height,
                Option::None => true,
            },
    {
        proof {
            assert(4 * (width as int) * (height as int) <= 0x4_0000_0000_0000_0000int)
                by (nonlinear_arith)
                requires
                    width as int <= 0xffff_ffff,
                    height as int <= 0xffff_ffff,
            ;
        }
        let expected: u128 = 4 * (width as u128) * (height as u128);
        if (rgba.len() as u128) == expected {
            Option::Some(RgbaIcon { rgba, width, height })
        } else {
            Option::None
        }
    }
}

/// What the decoder turns the given bytes into: the RGBA8 pixel buffer with
/// its width and height, or nothing when the bytes are no supported image.
/// The decode depends on the bytes alone.
pub uninterp spec fn decoded_rgba(bytes: Seq<u8>) -> Option<(Seq<u8>, u32, u32)>;

/// The view of a decode result, for speaking of it in contracts.
pub open spec fn parts_view(parts: Option<(Vec<u8>, u32, u32)>) -> Option<(Seq<u8>, u32, u32)> {
    match parts {
        Option::Some(t) => Option::Some((t.0@, t.1, t.2)),
        Option::None => Option::None,
    }
}

/// Relies on image::load_from_memory, image::DynamicImage::into_rgba8,
/// image::ImageBuffer::dimensions and image::ImageBuffer::into_raw: decodes
/// an encoded image into its RGBA8 pixel buffer and dimensions, a function
/// of the bytes alone. `RgbaIcon::from_parts` checks the result's size.
#[verifier::external_body]
fn decode_rgba(bytes: &[u8]) -> (r: Option<(Vec<u8>, u32, u32)>)
    ensures
        parts_view(r) == decoded_rgba(bytes@),
{
    match image::load_from_memory(bytes) {
        Result::Ok(img) => {
            let rgba = img.into_rgba8();
            let (width, height) = rgba.dimensions();
            Option::Some((rgba.into_raw(), width, height))
        },
        Result::Err(_) => Option::None,
    }
}

/// Decodes the icon bytes and checks that the decoded buffer is coherent
/// with the decoded dimensions: the result carries exactly what the decoder
/// produced, and is `None` exactly when the bytes do not decode or the
/// decoded buffer is incoherent. `None` means the icon cannot be presented;
/// the caller treats that as fatal at startup.
pub fn load_icon(bytes: &[u8]) -> (r: Option<RgbaIcon>)
    ensures
        match decoded_rgba(bytes@) {
            Option::Some(d) => {
                if d.0.len() == 4 * (d.1 as int) * (d.2 as int) {
                    (r matches Option::Some(icon) && icon.wf() && icon.rgba@ == d.0
                        && icon.width == d.1 && icon.height == d.2)
                } else {
                    r is None
                }
            },
            Option::None => r is None,
        },
{
    match decode_rgba(bytes) {
        Option::Some(parts) => {
            let (rgba, width, height) = parts;
            RgbaIcon::from_parts(rgba, width, height)
        },
        Option::None => Option::None,
    }
}

} // verus!
