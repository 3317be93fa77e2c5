//! Geometry of one open hardware display surface. The device is opened,
//! queried and memory-mapped by unverified platform code; this module holds
//! the arithmetic that derives the mapped size and the row pitch from the
//! queried geometry descriptor, and the invariant tying them together.

use vstd::prelude::*;

verus! {

/// The geometry query produced values whose derived byte size does not fit
/// the 32-bit size field.
#[derive(Clone, Copy, PartialEq, Eq, Structural, Debug)]
pub struct GeometryOverflow;

/// Geometry of one open framebuffer: pixel dimensions, row pitch, sample
/// depth and total mapped byte size. The mapped region of the device always
/// holds exactly `size` bytes, starting at offset zero; a geometry change
/// requires reopening the device.
pub struct FrameGeometry {
    /// Visible horizontal resolution in pixels.
    pub width: u32,
    /// Visible vertical resolution in pixels.
    pub height: u32,
    /// Bytes per image row.
    pub stride: u32,
    /// Bits per pixel.
    pub bits_per_pixel: u32,
    /// Total bytes of the mapped region.
    pub size: u32,
}

impl FrameGeometry {
    /// The derived fields agree with the queried resolution:
    /// `size = height * width * (bitsPerPixel / 8)` and
    /// `stride = width * (bitsPerPixel / 8)`.
    pub open spec fn wf(self) -> bool {
        &&& self.size == self.height * self.width * (self.bits_per_pixel / 8)
        &&& self.stride == self.width * (self.bits_per_pixel / 8)
    }

    /// Derives the geometry from a queried descriptor: horizontal and
    /// vertical resolution and bits-per-pixel. Fails exactly when the byte
    /// size of the surface does not fit the 32-bit size field.
    pub fn from_screeninfo(xres: u32, yres: u32, bits_per_pixel: u32) -> (r: Result<
        FrameGeometry,
        GeometryOverflow,
    >)
        ensures
            match r {
                Ok(g) => {
                    &&& g.width == xres
                    &&& g.height == yres
                    &&& g.bits_per_pixel == bits_per_pixel
                    &&& g.wf()
                    &&& yres * xres * (bits_per_pixel / 8) <= u32::MAX
                    &&& xres * (bits_per_pixel / 8) <= u32::MAX
                },
                Err(_) => yres * xres * (bits_per_pixel / 8) > u32::MAX || xres * (bits_per_pixel
                    / 8) > u32::MAX,
            },
    {
        let bytes_per_pixel: u32 = bits_per_pixel / 8;
        proof {
            assert((yres as int) * (xres as int) < 0x1_0000_0000_0000_0000 && (yres as int) * (
            xres as int) * (bytes_per_pixel as int) < 0x1_0000_0000_0000_0000_0000_0000 && (
            xres as int) * (bytes_per_pixel as int) < 0x1_0000_0000_0000_0000) by (nonlinear_arith)
                requires
                    yres < 0x1_0000_0000,
                    xres < 0x1_0000_0000,
                    bytes_per_pixel < 0x1_0000_0000,
            ;
        }
        let size_wide: u128 = (yres as u128) * (xres as u128) * (bytes_per_pixel as u128);
        let stride_wide: u128 = (xres as u128) * (bytes_per_pixel as u128);
        if size_wide > u32::MAX as u128 {
            return Err(GeometryOverflow);
        }
        if stride_wide > u32::MAX as u128 {
            return Err(GeometryOverflow);
        }
        Ok(
            FrameGeometry {
                width: xres,
                height: yres,
                stride: stride_wide as u32,
                bits_per_pixel,
                size: size_wide as u32,
            },
        )
    }
}

} // verus!
