//! The display surface, as the kernel is told of it.

use vstd::prelude::*;

verus! {

/// The active display surface: where its memory begins, how large that
/// memory is, and its geometry. The record is taken once from what the
/// display reports and is not changed afterwards.
#[derive(Clone, Copy, Debug, PartialEq, Eq, Structural)]
pub struct FrameBuffer {
    /// The address of the surface's first pixel.
    pub base_pointer: usize,
    /// The size of the surface's memory, in bytes.
    pub byte_size: usize,
    /// The number of pixels shown in a row.
    pub width_px: usize,
    /// The number of rows.
    pub height_px: usize,
    /// The number of pixels from the start of one row to the start of the
    /// next. The hardware may pad its rows, so this is not derived from the
    /// width.
    pub stride_px: usize,
}

impl FrameBuffer {
    /// The record of a display that reports these five values.
    pub open spec fn spec_new(
        base_pointer: usize,
        byte_size: usize,
        width_px: usize,
        height_px: usize,
        stride_px: usize,
    ) -> FrameBuffer {
        FrameBuffer { base_pointer, byte_size, width_px, height_px, stride_px }
    }

    /// Whether a row of the surface has room for the pixels shown in it.
    pub open spec fn rows_fit(&self) -> bool {
        self.stride_px >= self.width_px
    }

    /// Records what the display reports, each value as it is.
    pub fn new(
        base_pointer: usize,
        byte_size: usize,
        width_px: usize,
        height_px: usize,
        stride_px: usize,
    ) -> (surface: Box<FrameBuffer>)
        ensures
            *surface == FrameBuffer::spec_new(
                base_pointer,
                byte_size,
                width_px,
                height_px,
                stride_px,
            ),
            surface.base_pointer == base_pointer,
            surface.byte_size == byte_size,
            surface.width_px == width_px,
            surface.height_px == height_px,
            surface.stride_px == stride_px,
    {
        Box::new(FrameBuffer { base_pointer, byte_size, width_px, height_px, stride_px })
    }
}

/// The record of a display holds exactly what the display reports; where the
/// display reports rows that have room for their pixels, so does the record.
pub proof fn display_is_recorded_as_reported(
    base_pointer: usize,
    byte_size: usize,
    width_px: usize,
    height_px: usize,
    stride_px: usize,
)
    requires
        stride_px >= width_px,
    ensures
        ({
            let surface = FrameBuffer::spec_new(
                base_pointer,
                byte_size,
                width_px,
                height_px,
                stride_px,
            );
            &&& surface.base_pointer == base_pointer
            &&& surface.byte_size == byte_size
            &&& surface.width_px == width_px
            &&& surface.height_px == height_px
            &&& surface.stride_px == stride_px
            &&& surface.rows_fit()
        }),
{
}

} // verus!
