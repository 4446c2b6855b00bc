use vstd::prelude::*;

verus! {

#[verifier::external_type_specification]
#[verifier::external_body]
pub struct ExImageError(image::ImageError);

/// Calls `image::load_from_memory` and converts the image to 8-bit RGBA
/// with `to_rgba8`, giving its dimensions and raw buffer (`into_raw`).
///
/// Claimed: on success, the raw buffer holds at least `4 * width * height`
/// bytes, which `ImageBuffer` checks whenever one is built. Which pixels come
/// out, and whether decoding succeeds, is left unsaid: it depends on the
/// decoding hooks registered in the process as well as on the bytes.
#[verifier::external_body]
fn load_rgba8(data: &[u8]) -> (r: Result<(u32, u32, Vec<u8>), image::ImageError>)
    ensures
        r matches Ok(x) ==> 4 * x.0 * x.1 <= x.2@.len(),
{
    match image::load_from_memory(data) {
        Ok(img) => {
            let rgba = img.to_rgba8();
            let (width, height) = rgba.dimensions();
            Ok((width, height, rgba.into_raw()))
        },
        Err(e) => Err(e),
    }
}

/// Why an image cannot become a sprite.
#[derive(Debug, Clone, Copy, PartialEq, Eq, Structural)]
pub enum SpriteError {
    /// The bytes are no image that can be decoded.
    InvalidImage,
    /// A row of the image holds more bytes than a texture copy can describe.
    TooWide,
}

/// The layout of an RGBA texture upload: how many bytes a row holds and how
/// many rows an image has.
pub fn texture_copy_layout(width: u32, height: u32) -> (r: (u32, u32))
    requires
        4 * width <= u32::MAX,
    ensures
        r.0 == 4 * width,
        r.1 == height,
{
    (4 * width, height)
}

/// The pixels of a sprite, ready to be uploaded to a texture.
pub struct SpriteImage {
    pub width: u32,
    pub height: u32,
    /// Bytes per row of the upload: four per pixel.
    pub bytes_per_row: u32,
    /// 8-bit RGBA pixels, row after row.
    pub rgba: Vec<u8>,
}

impl SpriteImage {
    /// The sprite pixels of a decoded image, `width` by `height` 8-bit RGBA
    /// pixels in `rgba`; an error where a row is too wide for a texture copy.
    pub fn from_rgba8(width: u32, height: u32, rgba: Vec<u8>) -> (r: Result<SpriteImage, SpriteError>)
        ensures
            r is Err <==> 4 * width > u32::MAX,
            r matches Err(e) ==> e == SpriteError::TooWide,
            r matches Ok(img) ==> img.width == width && img.height == height && img.rgba@ == rgba@
                && img.bytes_per_row == 4 * width,
    {
        if width > u32::MAX / 4 {
            return Err(SpriteError::TooWide);
        }
        let (bytes_per_row, _rows) = texture_copy_layout(width, height);
        Ok(SpriteImage { width, height, bytes_per_row, rgba })
    }

    /// The sprite pixels of what decoding an image gave: `InvalidImage`
    /// where decoding failed, else the decoded pixels unchanged, as
    /// [`SpriteImage::from_rgba8`] takes them.
    pub fn from_decoded(decoded: Result<(u32, u32, Vec<u8>), image::ImageError>) -> (r: Result<SpriteImage, SpriteError>)
        ensures
            decoded is Err ==> r == Err::<SpriteImage, SpriteError>(SpriteError::InvalidImage),
            decoded matches Ok(x) ==> (r is Err <==> 4 * x.0 > u32::MAX),
            decoded matches Ok(x) ==> (r matches Err(e) ==> e == SpriteError::TooWide),
            decoded matches Ok(x) ==> (r matches Ok(img) ==> img.width == x.0 && img.height == x.1
                && img.rgba@ == x.2@ && img.bytes_per_row == 4 * x.0),
    {
        match decoded {
            Err(_) => Err(SpriteError::InvalidImage),
            Ok((width, height, rgba)) => Self::from_rgba8(width, height, rgba),
        }
    }

    /// Decode an image file held in memory with the `image` crate. Whatever
    /// the decoding gives, the pixels returned fill the rows of the upload,
    /// and a failure is either an image that cannot be decoded or one too
    /// wide for a texture copy.
    pub fn decode(data: &[u8]) -> (r: Result<SpriteImage, SpriteError>)
        ensures
            r matches Ok(img) ==> img.bytes_per_row == 4 * img.width
                && img.bytes_per_row * img.height <= img.rgba@.len(),
            r matches Err(e) ==> e == SpriteError::InvalidImage || e == SpriteError::TooWide,
    {
        Self::from_decoded(load_rgba8(data))
    }
}

} // verus!
