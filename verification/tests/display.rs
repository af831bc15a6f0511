use kernel_loader::display::FrameBuffer;

#[test]
fn the_display_is_recorded_as_reported() {
    let surface = FrameBuffer::new(0x8000_0000, 1024 * 768 * 4, 1000, 768, 1024);
    assert_eq!(surface.base_pointer, 0x8000_0000);
    assert_eq!(surface.byte_size, 1024 * 768 * 4);
    assert_eq!(surface.width_px, 1000);
    assert_eq!(surface.height_px, 768);
    assert_eq!(surface.stride_px, 1024);
    assert!(surface.stride_px >= surface.width_px);
}

#[test]
fn the_stride_is_not_derived_from_the_width() {
    let padded = FrameBuffer::new(0x1000, 0, 640, 480, 704);
    assert_eq!((padded.width_px, padded.stride_px), (640, 704));
    let exact = FrameBuffer::new(0x1000, 0, 640, 480, 640);
    assert_eq!((exact.width_px, exact.stride_px), (640, 640));
    assert_eq!(
        *FrameBuffer::new(1, 2, 3, 4, 5),
        FrameBuffer { base_pointer: 1, byte_size: 2, width_px: 3, height_px: 4, stride_px: 5 }
    );
}
