use render_gl::device::Device;
use render_gl::texture::{PixelFormat, Texture};
use render_gl::Viewport;

#[test]
fn new_blank_texture_holds_no_image() {
    let mut dev = Device::new();
    let tex = Texture::new_blank(&mut dev).unwrap();
    assert!(tex.image.is_none());
    assert_eq!(dev.live_count(), 1);
    tex.delete(&mut dev);
    assert_eq!(dev.live_count(), 0);
}

#[test]
fn texture_upload_rgba_two_by_two() {
    let mut dev = Device::new();
    let mut tex = Texture::new_blank(&mut dev).unwrap();
    let bytes: Vec<u8> = (0u8..16).collect();
    let r = Texture::load_texture_data(
        &mut dev,
        (PixelFormat::Rgba, PixelFormat::Rgba),
        &mut tex,
        (2, 2, &bytes),
    );
    assert!(r.is_ok());
    let img = tex.image.as_ref().expect("image uploaded");
    assert_eq!(img.width, 2);
    assert_eq!(img.height, 2);
    assert_eq!(img.pixels, bytes);
    // The upload leaves the texture target unbound again.
    assert_eq!(dev.bindings().texture, 0);
    tex.delete(&mut dev);
}

#[test]
fn texture_bind_at_selects_unit_and_binds() {
    let mut dev = Device::new();
    let tex = Texture::new_blank(&mut dev).unwrap();
    tex.bind_at(&mut dev, 2);
    assert_eq!(dev.bindings().texture_unit, 2);
    assert_eq!(dev.bindings().texture, tex.obj);
    tex.unbind(&mut dev);
    assert_eq!(dev.bindings().texture, 0);
    tex.delete(&mut dev);
}

#[test]
fn viewport_updates_keep_the_other_fields() {
    let mut v = Viewport::for_window(5, 6, 800, 600);
    v.update_size(1024, 768);
    assert_eq!((v.x, v.y, v.w, v.h), (5, 6, 1024, 768));
    v.update_position(1, 2);
    assert_eq!((v.x, v.y, v.w, v.h), (1, 2, 1024, 768));
}

#[test]
fn viewport_set_used_hands_size_at_origin_zero() {
    let mut dev = Device::new();
    let v = Viewport::for_window(5, 6, 800, 600);
    v.set_used(&mut dev);
    assert_eq!(dev.bindings().viewport_rect, (0, 0, 800, 600));
}
