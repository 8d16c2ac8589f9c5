//! Model of the upstream stream's format metadata, and the validation rule
//! that decides whether a stream may feed the transcoding stage.

use vstd::prelude::*;

verus! {

/// Colour family of a video stream, as the host describes it.
#[derive(Clone, Copy, PartialEq, Eq, Structural, Debug)]
pub enum ColorFamily {
    Undefined,
    Gray,
    Rgb,
    Yuv,
}

/// Sample representation of a video stream.
#[derive(Clone, Copy, PartialEq, Eq, Structural, Debug)]
pub enum SampleType {
    Integer,
    Float,
}

/// Format metadata of the upstream video stream: the fields the
/// transcoding stage reads before accepting a stream.
#[derive(Clone, Copy, PartialEq, Eq, Structural, Debug)]
pub struct VideoFormat {
    /// Bits per sample of each plane.
    pub bits_per_sample: u32,
    /// Colour family the planes belong to.
    pub color_family: ColorFamily,
    /// Integer or floating-point samples.
    pub sample_type: SampleType,
}

impl VideoFormat {
    /// The one accepted arrangement: 8-bit-per-sample, three-plane RGB,
    /// integer samples.
    pub open spec fn is_supported(self) -> bool {
        &&& self.bits_per_sample == 8
        &&& self.color_family is Rgb
        &&& self.sample_type is Integer
    }

    /// Decides whether this stream format may feed the stage.
    pub fn supported(&self) -> (r: bool)
        ensures
            r == self.is_supported(),
    {
        self.bits_per_sample == 8
            && self.color_family == ColorFamily::Rgb
            && self.sample_type == SampleType::Integer
    }
}

} // verus!
