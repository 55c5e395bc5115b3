//! The device descriptor: static pixel dimensions and display parameters a
//! context is created from.

use vstd::prelude::*;

verus! {

/// Largest surface side this library accepts, so that even a four-byte-
/// per-pixel `width * height` buffer fits in memory indices.
pub const MAX_DIM: u32 = 16384;

/// Describes the target a context renders to: pixel dimensions, density and
/// dots-per-inch (both in thousandths, so a density of 1.5 is stored as
/// 1500), GPU-vs-CPU intent, MSAA sample count and alpha channel presence.
///
/// Immutable once a context is created from it, except that an explicit
/// resize updates `width` and `height`.
#[derive(PartialEq, Eq, Structural, Clone, Copy, Debug)]
pub struct Device {
    pub width: u32,
    pub height: u32,
    /// Pixel density in thousandths (1000 = 1.0).
    pub density: u32,
    pub non_gpu: bool,
    pub samples: u32,
    pub alpha: bool,
    /// Dots per inch in thousandths (96000 = 96 dpi).
    pub ppi: u32,
}

impl Device {
    /// Dimensions and display parameters a context can build a surface from.
    pub open spec fn wf(self) -> bool {
        &&& 0 < self.width <= MAX_DIM
        &&& 0 < self.height <= MAX_DIM
        &&& 0 < self.density
        &&& 0 < self.ppi
    }

    /// A CPU-raster device: no GPU, no multisampling, no alpha channel.
    pub fn new_non_gpu(width: u32, height: u32, density: u32, ppi: u32) -> (d: Device)
        requires
            0 < width <= MAX_DIM,
            0 < height <= MAX_DIM,
            0 < density,
            0 < ppi,
        ensures
            d == (Device {
                width,
                height,
                density,
                non_gpu: true,
                samples: 0,
                alpha: false,
                ppi,
            }),
            d.wf(),
    {
        Device { width, height, density, non_gpu: true, samples: 0, alpha: false, ppi }
    }
}

} // verus!
