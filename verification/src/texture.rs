//! Texture objects: one handle each, with a whole-image upload and bind
//! wrappers. Straight-line state setting, modeled for completeness.

use crate::device::{Bindings, Device};
use crate::error::RenderError;
use vstd::prelude::*;
use vstd::slice::slice_to_vec;

verus! {

/// Pixel layouts the upload path distinguishes, at eight bits per channel.
/// A format pair names the device-side storage format and the layout of
/// the source bytes.
#[derive(Clone, Copy, Debug, PartialEq, Eq, Structural)]
pub enum PixelFormat {
    Rgba,
    Rgb,
}

/// Bytes per pixel of a source layout, at eight bits per channel.
pub open spec fn spec_bytes_per_pixel(f: PixelFormat) -> int {
    match f {
        PixelFormat::Rgba => 4,
        PixelFormat::Rgb => 3,
    }
}

/// Bytes per pixel of a source layout, at eight bits per channel.
pub fn bytes_per_pixel(f: PixelFormat) -> (n: usize)
    ensures
        n == spec_bytes_per_pixel(f),
{
    match f {
        PixelFormat::Rgba => 4,
        PixelFormat::Rgb => 3,
    }
}

/// The image a texture holds after an upload.
pub struct TextureImage {
    pub width: u32,
    pub height: u32,
    pub pixels: Vec<u8>,
}

/// A texture object owning one texture handle. Holds at most one uploaded
/// image; no intermediate upload state is retained.
pub struct Texture {
    /// The texture handle, as the device returned it.
    pub obj: u32,
    /// The image uploaded so far, if any.
    pub image: Option<TextureImage>,
}

impl Texture {
    /// Generate one texture object with no image data yet. Handle creation
    /// is not a recoverable failure, so the result is always the texture.
    pub fn new_blank(dev: &mut Device) -> (r: Result<Texture, RenderError>)
        requires
            old(dev).wf(),
            old(dev).can_alloc(1),
        ensures
            final(dev).wf(),
            final(dev).spec_bindings() == old(dev).spec_bindings(),
            forall|p: u32| final(dev).spec_attached(p) == old(dev).spec_attached(p),
            final(dev).can_alloc_shifted(*old(dev)),
            r matches Ok(t) && final(dev).lives_extended_by(*old(dev), t.obj) && t.image is None,
    {
        let obj = dev.gen_handle();
        Ok(Texture { obj, image: None })
    }

    /// Upload a whole two-dimensional image: bind the texture, fix the mip
    /// range to the base level, clamp both wrap axes to the edge, submit
    /// the image as `format` describes it, and unbind again. The byte
    /// count must match the dimensions and the source layout exactly;
    /// handing over a mismatched length is a caller error the device would
    /// answer with unspecified behavior, so it is ruled out here.
    pub fn load_texture_data(
        dev: &mut Device,
        format: (PixelFormat, PixelFormat),
        texture: &mut Texture,
        data: (u32, u32, &[u8]),
    ) -> (r: Result<(), RenderError>)
        requires
            old(dev).wf(),
            old(dev).live(old(texture).obj),
            data.2@.len() == data.0 * data.1 * spec_bytes_per_pixel(format.1),
        ensures
            final(dev).wf(),
            final(texture).obj == old(texture).obj,
            final(texture).image matches Some(img) && img.width == data.0 && img.height == data.1
                && img.pixels@ == data.2@,
            r is Ok,
            final(dev).spec_bindings() == (Bindings { texture: 0, ..old(dev).spec_bindings() }),
            final(dev).non_binding_state_eq(*old(dev)),
    {
        let (img_w, img_h, bytes) = (data.0, data.1, data.2);
        dev.bind_texture(texture.obj);
        // The device also receives the mip range (base and max level 0) and
        // the edge-clamp wrap mode for both axes here, followed by the
        // image itself at the base level.
        texture.image = Some(
            TextureImage { width: img_w, height: img_h, pixels: slice_to_vec(bytes) },
        );
        dev.bind_texture(0);
        Ok(())
    }

    /// Bind this texture to the two-dimensional target.
    pub fn bind(&self, dev: &mut Device)
        requires
            old(dev).wf(),
            old(dev).live(self.obj),
        ensures
            final(dev).wf(),
            final(dev).spec_bindings() == (Bindings { texture: self.obj, ..old(dev).spec_bindings() }),
            final(dev).non_binding_state_eq(*old(dev)),
    {
        dev.bind_texture(self.obj);
    }

    /// Clear the two-dimensional texture binding.
    pub fn unbind(&self, dev: &mut Device)
        requires
            old(dev).wf(),
        ensures
            final(dev).wf(),
            final(dev).spec_bindings() == (Bindings { texture: 0, ..old(dev).spec_bindings() }),
            final(dev).non_binding_state_eq(*old(dev)),
    {
        dev.bind_texture(0);
    }

    /// Select texture unit `index` and bind this texture there.
    pub fn bind_at(&self, dev: &mut Device, index: u32)
        requires
            old(dev).wf(),
            old(dev).live(self.obj),
        ensures
            final(dev).wf(),
            final(dev).spec_bindings() == (Bindings {
                texture_unit: index,
                texture: self.obj,
                ..old(dev).spec_bindings()
            }),
            final(dev).non_binding_state_eq(*old(dev)),
    {
        dev.set_texture_unit(index);
        self.bind(dev);
    }

    /// Release the texture's handle. Consuming `self` makes a second
    /// release of the same handle inexpressible.
    pub fn delete(self, dev: &mut Device)
        requires
            old(dev).wf(),
            old(dev).live(self.obj),
        ensures
            final(dev).wf(),
            final(dev).lives_removed(*old(dev), self.obj),
            final(dev).spec_released() == old(dev).spec_released().push(self.obj),
            final(dev).spec_bindings() == old(dev).spec_bindings(),
            forall|n: int| old(dev).can_alloc(n) <==> final(dev).can_alloc(n),
    {
        dev.release_handle(self.obj);
    }
}

} // verus!
