//! Textures and the texture store.
//!
//! The store issues dense, monotonically increasing integer handles for
//! loaded 2D textures and keeps the depth buffer's descriptor.  Image
//! bytes are decoded here, through the `image` crate; the GPU upload of
//! the decoded pixels, the samplers and the bind groups are the host's
//! business.  Unlike a material, a missing texture cannot be defaulted:
//! looking up an unknown handle is a scene-configuration bug and is ruled
//! out by contract.

use vstd::prelude::*;

use crate::context::SurfaceConfig;

verus! {

/// The dimensions of one loaded 2D texture.
#[derive(Clone, Copy, Debug, PartialEq, Eq, Structural)]
pub struct TextureInfo {
    pub width: u32,
    pub height: u32,
}

/// The depth buffer's descriptor: always surface-sized, with each
/// dimension at least 1 so that a minimized surface still has a valid
/// depth attachment.
#[derive(Clone, Copy, Debug, PartialEq, Eq, Structural)]
pub struct DepthTexture {
    pub width: u32,
    pub height: u32,
}

/// A texture load failure: the bytes did not decode as an image.
#[derive(Clone, Copy, Debug, PartialEq, Eq, Structural)]
pub enum TextureError {
    Decode,
}

/// A freshly loaded texture: its new handle, its dimensions and its
/// RGBA8 pixel data, ready for the host to upload.
#[derive(Clone, Debug, PartialEq)]
pub struct LoadedTexture {
    pub id: u32,
    pub width: u32,
    pub height: u32,
    pub rgba: Vec<u8>,
}

/// Whether the `image` crate decodes these bytes as an image.
pub uninterp spec fn image_decodable(bytes: Seq<u8>) -> bool;

/// The width of the image the `image` crate decodes from these bytes.
pub uninterp spec fn image_width(bytes: Seq<u8>) -> u32;

/// The height of the image the `image` crate decodes from these bytes.
pub uninterp spec fn image_height(bytes: Seq<u8>) -> u32;

/// The RGBA8 pixel data of the image the `image` crate decodes from these
/// bytes, in row-major order, four bytes per pixel.
pub uninterp spec fn image_rgba(bytes: Seq<u8>) -> Seq<u8>;

/// Relies on `image::load_from_memory` to decode the bytes (guessing the
/// format), `image::GenericImageView::dimensions` for the image's size and
/// `image::DynamicImage::to_rgba8` for its pixels as an RGBA8 buffer of
/// `4 * width * height` bytes.  All three are functions of the bytes
/// alone.
#[verifier::external_body]
fn decode_image(bytes: &Vec<u8>) -> (r: Result<(u32, u32, Vec<u8>), image::ImageError>)
    ensures
        r is Ok <==> image_decodable(bytes@),
        r matches Ok(t) ==> t.0 == image_width(bytes@) && t.1 == image_height(bytes@) && t.2@
            == image_rgba(bytes@) && t.2@.len() == 4 * t.0 * t.1,
{
    let img = image::load_from_memory(bytes)?;
    let (width, height) = image::GenericImageView::dimensions(&img);
    Ok((width, height, img.to_rgba8().into_raw()))
}

/// Declares `image::ImageError`, the error the decoder reports, so the
/// trusted decode call can return it; callers map it to [`TextureError`].
#[verifier::external_type_specification]
#[verifier::external_body]
pub struct ExImageError(image::ImageError);

/// What the depth buffer's descriptor is for a surface configuration.
pub open spec fn spec_depth_texture(c: SurfaceConfig) -> DepthTexture {
    DepthTexture {
        width: if c.width >= 1 { c.width } else { 1 },
        height: if c.height >= 1 { c.height } else { 1 },
    }
}

/// Dense-handle table of loaded textures plus the depth buffer.
pub struct TextureStore {
    pub depth_texture: DepthTexture,
    pub textures: Vec<TextureInfo>,
}

impl TextureStore {
    /// The loaded textures, in handle order: the texture with handle `i`
    /// is the `i`-th element.
    pub open spec fn textures(&self) -> Seq<TextureInfo> {
        self.textures@
    }

    /// An empty store whose depth buffer fits the given surface
    /// configuration.
    pub fn new(config: &SurfaceConfig) -> (r: TextureStore)
        ensures
            r.textures().len() == 0,
            r.depth_texture == spec_depth_texture(*config),
    {
        TextureStore { depth_texture: Self::create_depth_texture(config), textures: Vec::new() }
    }

    /// The depth buffer descriptor for the given surface configuration:
    /// surface-sized, with each dimension at least 1.
    pub fn create_depth_texture(config: &SurfaceConfig) -> (r: DepthTexture)
        ensures
            r == spec_depth_texture(*config),
    {
        DepthTexture {
            width: if config.width >= 1 {
                config.width
            } else {
                1
            },
            height: if config.height >= 1 {
                config.height
            } else {
                1
            },
        }
    }

    /// Decodes the bytes and registers the texture under the next free
    /// handle.  On success the handle, the dimensions and the RGBA8
    /// pixels to upload come back; bytes that do not decode leave the
    /// store untouched and fail with a decode error.
    pub fn load_texture_from_bytes(&mut self, bytes: &Vec<u8>) -> (r: Result<
        LoadedTexture,
        TextureError,
    >)
        requires
            old(self).textures().len() < u32::MAX,
        ensures
            r is Ok <==> image_decodable(bytes@),
            r matches Ok(t) ==> t.id == old(self).textures().len() && t.width == image_width(
                bytes@,
            ) && t.height == image_height(bytes@) && t.rgba@ == image_rgba(bytes@) && t.rgba@.len()
                == 4 * t.width * t.height && final(self).textures() == old(self).textures().push(
                TextureInfo { width: t.width, height: t.height },
            ),
            r is Err ==> *final(self) == *old(self) && r matches Err(TextureError::Decode),
            final(self).depth_texture == old(self).depth_texture,
    {
        match decode_image(bytes) {
            Ok((width, height, rgba)) => {
                let id = self.textures.len() as u32;
                self.textures.push(TextureInfo { width, height });
                Ok(LoadedTexture { id, width, height, rgba })
            },
            Err(_) => Err(TextureError::Decode),
        }
    }

    /// Whether a texture is registered under this handle.
    pub fn contains_texture(&self, id: u32) -> (r: bool)
        ensures
            r == ((id as int) < self.textures().len()),
    {
        (id as usize) < self.textures.len()
    }

    /// Looks a texture up by handle.  An unknown handle is a broken asset
    /// reference, fatal by design, and is ruled out by the contract: a
    /// caller must have registered the texture first.
    pub fn get_texture(&self, id: u32) -> (r: &TextureInfo)
        requires
            (id as int) < self.textures().len(),
        ensures
            *r == self.textures()[id as int],
    {
        &self.textures[id as usize]
    }
}

} // verus!
