//! The drawing state: every style attribute that affects subsequent draw
//! calls, saved and restored as a unit by the rendering context.
//!
//! Fractional attributes (line width, miter limit, shadow blur, global
//! alpha, dash entries) are carried in thousandths, so 1.0 is stored as
//! 1000.

use vstd::prelude::*;

use crate::color::Color;
use crate::device::Device;

verus! {

/// One whole unit in the fixed-point encoding of fractional attributes.
pub const MILLI_ONE: u32 = 1000;

#[derive(PartialEq, Eq, Structural, Clone, Copy, Debug)]
pub enum TextDirection {
    Ltr,
    Rtl,
}

#[derive(PartialEq, Eq, Structural, Clone, Copy, Debug)]
pub enum TextAlign {
    Start,
    Left,
    Center,
    Right,
    End,
}

#[derive(PartialEq, Eq, Structural, Clone, Copy, Debug)]
pub enum TextBaseLine {
    Top,
    Hanging,
    Middle,
    Alphabetic,
    Ideographic,
    Bottom,
}

#[derive(PartialEq, Eq, Structural, Clone, Copy, Debug)]
pub enum LineCap {
    Butt,
    Round,
    Square,
}

#[derive(PartialEq, Eq, Structural, Clone, Copy, Debug)]
pub enum LineJoin {
    Miter,
    Round,
    Bevel,
}

#[derive(PartialEq, Eq, Structural, Clone, Copy, Debug)]
pub enum CompositeOperationType {
    SourceOver,
    SourceIn,
    SourceOut,
    SourceAtop,
    DestinationOver,
    DestinationIn,
    DestinationOut,
    DestinationAtop,
    Lighter,
    Copy,
    Xor,
}

#[derive(PartialEq, Eq, Structural, Clone, Copy, Debug)]
pub enum ImageSmoothingQuality {
    Low,
    Medium,
    High,
}

/// The filter a draw call samples images with: `Nearest` is a point
/// sample, the rest smooth.
#[derive(PartialEq, Eq, Structural, Clone, Copy, Debug)]
pub enum FilterQuality {
    Nearest,
    Low,
    Medium,
    High,
}

/// Offset in thousandths of a pixel along each axis.
#[derive(PartialEq, Eq, Structural, Clone, Copy, Debug)]
pub struct Offset {
    pub x: i32,
    pub y: i32,
}

/// Fill and stroke sub-styles of the paint.
#[derive(PartialEq, Eq, Structural, Clone, Copy, Debug)]
pub struct Paint {
    pub fill_color: Color,
    pub stroke_color: Color,
    /// Stroke width in thousandths; positive.
    pub stroke_width: u32,
    /// Stroke miter in thousandths; positive.
    pub stroke_miter: u32,
}

/// The font a context draws text with: the CSS-style specification string
/// it was resolved from and the resolved size in thousandths of a pixel.
#[derive(Clone, Debug)]
pub struct Font {
    pub spec_string: String,
    pub size: u32,
}

impl Font {
    /// The default font of a fresh drawing state.
    pub fn ten_px_sans_serif() -> (f: Font)
        ensures
            f.spec_string@ == "10px sans-serif"@,
            f.size == 10 * MILLI_ONE,
    {
        Font { spec_string: "10px sans-serif".to_string(), size: 10 * MILLI_ONE }
    }
}

/// The full set of style attributes, saved and restored as a unit.
#[derive(Clone, Debug)]
pub struct State {
    pub direction: TextDirection,
    pub paint: Paint,
    pub font: Font,
    pub text_align: TextAlign,
    pub text_baseline: TextBaseLine,
    pub shadow_color: Color,
    pub shadow_offset: Offset,
    /// Shadow blur radius in thousandths; non-negative by type.
    pub shadow_blur: u32,
    pub image_smoothing_enabled: bool,
    pub image_smoothing_quality: ImageSmoothingQuality,
    /// Line width in thousandths; positive.
    pub line_width: u32,
    pub line_cap: LineCap,
    pub line_join: LineJoin,
    /// Miter limit in thousandths; positive.
    pub miter_limit: u32,
    /// Dash entries in thousandths; non-negative by type.
    pub line_dash_list: Vec<u32>,
    /// Dash offset in thousandths.
    pub line_dash_offset: i32,
    pub filter: String,
    /// Global alpha in thousandths, in `[0, 1000]`.
    pub global_alpha: u32,
    pub global_composite_operation: CompositeOperationType,
}

/// The mathematical value of a [`State`]: every attribute as a plain
/// value, the dash list as a sequence, the strings as character
/// sequences.
pub ghost struct StateModel {
    pub direction: TextDirection,
    pub paint: Paint,
    pub font_spec: Seq<char>,
    pub font_size: u32,
    pub text_align: TextAlign,
    pub text_baseline: TextBaseLine,
    pub shadow_color: Color,
    pub shadow_offset: Offset,
    pub shadow_blur: u32,
    pub image_smoothing_enabled: bool,
    pub image_smoothing_quality: ImageSmoothingQuality,
    pub line_width: u32,
    pub line_cap: LineCap,
    pub line_join: LineJoin,
    pub miter_limit: u32,
    pub line_dash_list: Seq<u32>,
    pub line_dash_offset: i32,
    pub filter: Seq<char>,
    pub global_alpha: u32,
    pub global_composite_operation: CompositeOperationType,
}

impl StateModel {
    pub open spec fn wf(self) -> bool {
        &&& 0 < self.line_width
        &&& 0 < self.miter_limit
        &&& 0 < self.paint.stroke_width
        &&& 0 < self.paint.stroke_miter
        &&& self.global_alpha <= MILLI_ONE
    }
}

/// What a freshly derived state holds: line width one, miter limit ten,
/// global alpha one, source-over compositing, filter "none", smoothing
/// off, and every other attribute at its documented default.
pub open spec fn fresh_default(direction: TextDirection) -> StateModel {
    StateModel {
        direction,
        paint: Paint {
            fill_color: Color { r: 0, g: 0, b: 0, a: 255 },
            stroke_color: Color { r: 0, g: 0, b: 0, a: 255 },
            stroke_width: MILLI_ONE,
            stroke_miter: (10 * MILLI_ONE) as u32,
        },
        font_spec: "10px sans-serif"@,
        font_size: (10 * MILLI_ONE) as u32,
        text_align: TextAlign::Start,
        text_baseline: TextBaseLine::Alphabetic,
        shadow_color: Color::transparent_spec(),
        shadow_offset: Offset { x: 0, y: 0 },
        shadow_blur: 0,
        image_smoothing_enabled: false,
        image_smoothing_quality: ImageSmoothingQuality::Low,
        line_width: MILLI_ONE,
        line_cap: LineCap::Butt,
        line_join: LineJoin::Miter,
        miter_limit: (10 * MILLI_ONE) as u32,
        line_dash_list: Seq::empty(),
        line_dash_offset: 0,
        filter: "none"@,
        global_alpha: MILLI_ONE,
        global_composite_operation: CompositeOperationType::SourceOver,
    }
}

impl View for State {
    type V = StateModel;

    open spec fn view(&self) -> StateModel {
        StateModel {
            direction: self.direction,
            paint: self.paint,
            font_spec: self.font.spec_string@,
            font_size: self.font.size,
            text_align: self.text_align,
            text_baseline: self.text_baseline,
            shadow_color: self.shadow_color,
            shadow_offset: self.shadow_offset,
            shadow_blur: self.shadow_blur,
            image_smoothing_enabled: self.image_smoothing_enabled,
            image_smoothing_quality: self.image_smoothing_quality,
            line_width: self.line_width,
            line_cap: self.line_cap,
            line_join: self.line_join,
            miter_limit: self.miter_limit,
            line_dash_list: self.line_dash_list@,
            line_dash_offset: self.line_dash_offset,
            filter: self.filter@,
            global_alpha: self.global_alpha,
            global_composite_operation: self.global_composite_operation,
        }
    }
}

impl State {
    pub open spec fn wf(self) -> bool {
        self@.wf()
    }

    /// A fresh default state for the given device and text direction.
    ///
    /// The device only fixes which display the default font is resolved
    /// against; every attribute of the result is the documented default.
    pub fn from_device(device: Device, direction: TextDirection) -> (s: State)
        ensures
            s@ == fresh_default(direction),
            s.wf(),
    {
        let _ = device;
        State {
            direction,
            paint: Paint {
                fill_color: Color::black(),
                stroke_color: Color::black(),
                stroke_width: MILLI_ONE,
                stroke_miter: 10 * MILLI_ONE,
            },
            font: Font::ten_px_sans_serif(),
            text_align: TextAlign::Start,
            text_baseline: TextBaseLine::Alphabetic,
            shadow_color: Color::transparent(),
            shadow_offset: Offset { x: 0, y: 0 },
            shadow_blur: 0,
            image_smoothing_enabled: false,
            image_smoothing_quality: ImageSmoothingQuality::Low,
            line_width: MILLI_ONE,
            line_cap: LineCap::Butt,
            line_join: LineJoin::Miter,
            miter_limit: 10 * MILLI_ONE,
            line_dash_list: Vec::new(),
            line_dash_offset: 0,
            filter: "none".to_string(),
            global_alpha: MILLI_ONE,
            global_composite_operation: CompositeOperationType::SourceOver,
        }
    }

    /// An independent copy with the same mathematical value: the stack
    /// pushes and pops states by value, never by sharing.
    pub fn duplicate(&self) -> (out: State)
        ensures
            out@ == self@,
    {
        State {
            direction: self.direction,
            paint: self.paint,
            font: Font { spec_string: self.font.spec_string.clone(), size: self.font.size },
            text_align: self.text_align,
            text_baseline: self.text_baseline,
            shadow_color: self.shadow_color,
            shadow_offset: self.shadow_offset,
            shadow_blur: self.shadow_blur,
            image_smoothing_enabled: self.image_smoothing_enabled,
            image_smoothing_quality: self.image_smoothing_quality,
            line_width: self.line_width,
            line_cap: self.line_cap,
            line_join: self.line_join,
            miter_limit: self.miter_limit,
            line_dash_list: copy_dashes(&self.line_dash_list),
            line_dash_offset: self.line_dash_offset,
            filter: self.filter.clone(),
            global_alpha: self.global_alpha,
            global_composite_operation: self.global_composite_operation,
        }
    }

    /// The filter quality a draw call samples images with: the configured
    /// smoothing quality when smoothing is enabled, a point sample
    /// otherwise.
    pub fn image_filter_quality(&self) -> (q: FilterQuality)
        ensures
            q == self.image_filter_quality_spec(),
    {
        if self.image_smoothing_enabled {
            match self.image_smoothing_quality {
                ImageSmoothingQuality::Low => FilterQuality::Low,
                ImageSmoothingQuality::Medium => FilterQuality::Medium,
                ImageSmoothingQuality::High => FilterQuality::High,
            }
        } else {
            FilterQuality::Nearest
        }
    }

    pub open spec fn image_filter_quality_spec(self) -> FilterQuality {
        if self.image_smoothing_enabled {
            match self.image_smoothing_quality {
                ImageSmoothingQuality::Low => FilterQuality::Low,
                ImageSmoothingQuality::Medium => FilterQuality::Medium,
                ImageSmoothingQuality::High => FilterQuality::High,
            }
        } else {
            FilterQuality::Nearest
        }
    }
}

/// An owned copy of a dash list.
fn copy_dashes(src: &Vec<u32>) -> (out: Vec<u32>)
    ensures
        out@ == src@,
{
    let mut out: Vec<u32> = Vec::new();
    let mut i: usize = 0;
    while i < src.len()
        invariant
            i <= src@.len(),
            out@ == src@.take(i as int),
        decreases src@.len() - i,
    {
        out.push(src[i]);
        proof {
            assert(out@ =~= src@.take(i + 1));
        }
        i = i + 1;
    }
    proof {
        assert(out@ =~= src@);
    }
    out
}

} // verus!
