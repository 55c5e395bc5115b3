//! Image assets: decoded, pixel-addressable containers produced by the
//! ingestion pipeline, usable as drawing sources.

use vstd::prelude::*;

use crate::color::Color;
use crate::device::MAX_DIM;

verus! {

/// Whether an asset's color channels are already multiplied by its alpha.
#[derive(PartialEq, Eq, Structural, Clone, Copy, Debug)]
pub enum AlphaType {
    Unpremultiplied,
    Premultiplied,
}

/// The colorspace an asset's channels are expressed in: `Srgb` is the
/// normalized working colorspace, `Untagged` passes the source's own
/// colorspace through unidentified.
#[derive(PartialEq, Eq, Structural, Clone, Copy, Debug)]
pub enum ColorSpaceTag {
    Untagged,
    Srgb,
}

/// The mathematical value of an [`ImageAsset`]: its pixel grid in row-major
/// order together with its dimensions and representation tags.
pub ghost struct AssetModel {
    pub data: Seq<Color>,
    pub width: int,
    pub height: int,
    pub alpha: AlphaType,
    pub color_space: ColorSpaceTag,
}

impl AssetModel {
    /// A stored grid matches its dimensions, the dimensions are within the
    /// library's bounds, and a zero-area asset is exactly the sentinel.
    pub open spec fn wf(self) -> bool {
        &&& self.data.len() == self.width * self.height
        &&& 0 <= self.width <= MAX_DIM
        &&& 0 <= self.height <= MAX_DIM
        &&& (self.width == 0 <==> self.height == 0)
    }

    /// The empty sentinel: zero dimensions, no pixels, source-like tags.
    pub open spec fn empty() -> AssetModel {
        AssetModel {
            data: Seq::empty(),
            width: 0,
            height: 0,
            alpha: AlphaType::Unpremultiplied,
            color_space: ColorSpaceTag::Untagged,
        }
    }

    pub open spec fn is_empty(self) -> bool {
        self.width == 0 || self.height == 0
    }
}

/// A decoded image: an owned pixel grid with its dimensions and tags.
///
/// Created by the ingestion pipeline or by direct raw-buffer ingestion. An
/// asset with zero width and height is the valid "empty" sentinel that
/// every ingestion entry point returns on failure; callers must treat it
/// as failure, not as an error to be thrown.
#[derive(Clone, Debug)]
pub struct ImageAsset {
    pub data: Vec<Color>,
    pub width: u32,
    pub height: u32,
    pub alpha_type: AlphaType,
    pub color_space: ColorSpaceTag,
}

impl View for ImageAsset {
    type V = AssetModel;

    open spec fn view(&self) -> AssetModel {
        AssetModel {
            data: self.data@,
            width: self.width as int,
            height: self.height as int,
            alpha: self.alpha_type,
            color_space: self.color_space,
        }
    }
}

impl ImageAsset {
    pub open spec fn wf(self) -> bool {
        self@.wf()
    }

    /// The empty sentinel asset.
    pub fn empty() -> (a: ImageAsset)
        ensures
            a@ == AssetModel::empty(),
            a.wf(),
    {
        let a = ImageAsset {
            data: Vec::new(),
            width: 0,
            height: 0,
            alpha_type: AlphaType::Unpremultiplied,
            color_space: ColorSpaceTag::Untagged,
        };
        proof {
            assert(a@.data =~= AssetModel::empty().data);
        }
        a
    }

    /// Whether this asset is the failure sentinel; callers check this
    /// rather than catching an error.
    pub fn is_empty(&self) -> (r: bool)
        ensures
            r == self@.is_empty(),
    {
        self.width == 0 || self.height == 0
    }
}

} // verus!
