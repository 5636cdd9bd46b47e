use render_gl::buffer::{ArrayBuffer, ElementArrayBuffer};
use render_gl::device::Device;
use render_gl::VertexArray;

#[test]
fn fresh_device_has_no_live_handles() {
    let dev = Device::new();
    assert_eq!(dev.live_count(), 0);
    let b = dev.bindings();
    assert_eq!(b.array_buffer, 0);
    assert_eq!(b.element_array_buffer, 0);
    assert_eq!(b.vertex_array, 0);
    assert_eq!(b.texture, 0);
    assert_eq!(b.program, 0);
}

#[test]
fn buffer_lifecycle_releases_exactly_once() {
    let mut dev = Device::new();
    let buf: ArrayBuffer<u8> = ArrayBuffer::new(&mut dev);
    assert_eq!(dev.live_count(), 1);
    buf.delete(&mut dev);
    assert_eq!(dev.live_count(), 0);
}

#[test]
fn bind_targets_are_kept_apart() {
    let mut dev = Device::new();
    let vbuf: ArrayBuffer<u8> = ArrayBuffer::new(&mut dev);
    let ibuf: ElementArrayBuffer<u8> = ElementArrayBuffer::new(&mut dev);
    vbuf.bind(&mut dev);
    ibuf.bind(&mut dev);
    assert_eq!(dev.bindings().array_buffer, vbuf.vbo);
    assert_eq!(dev.bindings().element_array_buffer, ibuf.vbo);
    vbuf.unbind(&mut dev);
    assert_eq!(dev.bindings().array_buffer, 0);
    assert_eq!(dev.bindings().element_array_buffer, ibuf.vbo);
    ibuf.unbind(&mut dev);
    vbuf.delete(&mut dev);
    ibuf.delete(&mut dev);
    assert_eq!(dev.live_count(), 0);
}

#[test]
fn upload_static_reads_back_exactly() {
    let mut dev = Device::new();
    let mut buf: ArrayBuffer<i32> = ArrayBuffer::new(&mut dev);
    buf.bind(&mut dev);
    buf.static_draw_data(&dev, &[7, -3, 42]);
    assert_eq!(buf.len(), 3);
    assert_eq!(buf.read(0), Some(7));
    assert_eq!(buf.read(1), Some(-3));
    assert_eq!(buf.read(2), Some(42));
    buf.unbind(&mut dev);
    buf.delete(&mut dev);
}

#[test]
fn upload_dynamic_reads_back_exactly() {
    let mut dev = Device::new();
    let mut buf: ArrayBuffer<f32> = ArrayBuffer::new(&mut dev);
    buf.bind(&mut dev);
    buf.dynamic_draw_data(&dev, &[0.5f32, 1.5, 2.5]);
    assert_eq!(buf.len(), 3);
    assert_eq!(buf.read(0), Some(0.5));
    assert_eq!(buf.read(2), Some(2.5));
    buf.delete(&mut dev);
}

#[test]
fn uninitialized_allocation_reads_none() {
    let mut dev = Device::new();
    let mut buf: ArrayBuffer<f32> = ArrayBuffer::new(&mut dev);
    buf.bind(&mut dev);
    buf.dynamic_draw_data_null(&dev, 4);
    assert_eq!(buf.len(), 4);
    for i in 0..4 {
        assert_eq!(buf.read(i), None);
    }
    buf.delete(&mut dev);
}

#[test]
fn map_write_unmap_reads_back_written_values() {
    let mut dev = Device::new();
    let mut buf: ArrayBuffer<f32> = ArrayBuffer::new(&mut dev);
    buf.bind(&mut dev);
    buf.dynamic_draw_data_null(&dev, 4);
    let mut view = buf
        .map_buffer_range_write_invalidate(&dev, 0, 4, true)
        .expect("device accepted the mapping");
    assert_eq!(view.len(), 4);
    view.set(0, 1.0);
    view.set(1, 2.0);
    view.set(2, 3.0);
    view.set(3, 4.0);
    buf.unmap(&dev, view);
    assert_eq!(buf.read(0), Some(1.0));
    assert_eq!(buf.read(1), Some(2.0));
    assert_eq!(buf.read(2), Some(3.0));
    assert_eq!(buf.read(3), Some(4.0));
    assert_eq!(dev.live_count(), 1);
    buf.delete(&mut dev);
    assert_eq!(dev.live_count(), 0);
}

#[test]
fn second_map_while_view_out_fails_deterministically() {
    let mut dev = Device::new();
    let mut buf: ArrayBuffer<u8> = ArrayBuffer::new(&mut dev);
    buf.bind(&mut dev);
    buf.dynamic_draw_data_null(&dev, 8);
    let first = buf.map_buffer_range_write_invalidate(&dev, 0, 8, true);
    assert!(first.is_some());
    let second = buf.map_buffer_range_write_invalidate(&dev, 0, 4, true);
    assert!(second.is_none());
    buf.unmap(&dev, first.unwrap());
    let third = buf.map_buffer_range_write_invalidate(&dev, 0, 4, true);
    assert!(third.is_some());
    buf.unmap(&dev, third.unwrap());
    buf.delete(&mut dev);
}

#[test]
fn map_refused_by_device_yields_none() {
    let mut dev = Device::new();
    let mut buf: ArrayBuffer<u8> = ArrayBuffer::new(&mut dev);
    buf.bind(&mut dev);
    buf.dynamic_draw_data_null(&dev, 8);
    let view = buf.map_buffer_range_write_invalidate(&dev, 0, 8, false);
    assert!(view.is_none());
    buf.delete(&mut dev);
}

#[test]
fn partial_map_write_discards_unwritten_range() {
    let mut dev = Device::new();
    let mut buf: ArrayBuffer<i32> = ArrayBuffer::new(&mut dev);
    buf.bind(&mut dev);
    buf.static_draw_data(&dev, &[10, 20, 30, 40]);
    let mut view = buf
        .map_buffer_range_write_invalidate(&dev, 1, 2, true)
        .expect("device accepted the mapping");
    view.set(0, 99);
    buf.unmap(&dev, view);
    assert_eq!(buf.read(0), Some(10));
    assert_eq!(buf.read(1), Some(99));
    assert_eq!(buf.read(2), None);
    assert_eq!(buf.read(3), Some(40));
    buf.delete(&mut dev);
}

#[test]
fn vertex_array_bind_unbind_and_release() {
    let mut dev = Device::new();
    let va = VertexArray::new(&mut dev);
    assert_eq!(dev.live_count(), 1);
    va.bind(&mut dev);
    assert_ne!(dev.bindings().vertex_array, 0);
    va.unbind(&mut dev);
    assert_eq!(dev.bindings().vertex_array, 0);
    va.delete(&mut dev);
    assert_eq!(dev.live_count(), 0);
}
