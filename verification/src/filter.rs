//! The filter instance and its per-frame activation protocol: setup-time
//! validation of the upstream stream, then, per frame, the two-phase
//! request/produce cycle the host drives. All state a frame needs is
//! re-derivable from the frame index and the read-only configuration.

use vstd::prelude::*;

use crate::encode::MAX_DIMENSION;
use crate::encode::encode_rgb_webp;
use crate::encode::webp_lossless;
use crate::format::VideoFormat;
use crate::pack::pack_bytes;
use crate::pack::pack_rgb;
use crate::template::resolve_template;
use crate::template::substitute;

verus! {

/// Why setup refuses to create the filter node.
#[derive(Clone, Copy, PartialEq, Eq, Structural, Debug)]
pub enum SetupError {
    /// The upstream stream is not 8-bit-per-sample integer RGB.
    UnsupportedFormat,
    /// The required path-template parameter is absent.
    MissingPath,
}

/// Why one frame's activation produced no output.
#[derive(Clone, Copy, PartialEq, Eq, Structural, Debug)]
pub enum FrameError {
    /// The path template holds a brace that is not part of a `{n}`
    /// placeholder; the frame is refused rather than written to a
    /// partial or default path.
    InvalidTemplate,
    /// A frame dimension is zero or above the container's limit, so the
    /// encoder refuses the frame.
    InvalidDimensions,
}

/// One activation call, as the host drives it: the phase tag together
/// with what that phase has in hand. `F` is the host's opaque frame
/// handle; the library never looks inside it.
pub enum Activation<'a, F> {
    /// First phase: the processor must declare which upstream frame it
    /// needs and yield back to the scheduler.
    Initial,
    /// Second phase: the requested upstream frame is resident. `frame` is
    /// the host's handle to it, handed back unchanged on success; the
    /// three planes are its channels in order, `width` and `height` its
    /// plane-0 dimensions (all planes are iso-dimensioned in the accepted
    /// format).
    AllFramesReady {
        frame: F,
        width: u32,
        height: u32,
        red: &'a [u8],
        green: &'a [u8],
        blue: &'a [u8],
    },
    /// An upstream dependency failed; the processor must do no work.
    Error,
}

/// What one activation call asks the host to do.
pub enum Outcome<F> {
    /// Request the upstream frame at `index` — always the activation's
    /// own index, a strict 1:1 temporal mapping — and yield.
    Request { index: i32 },
    /// Write `encoded` to the file at `path` (truncating any existing
    /// file), first creating missing parent directories iff
    /// `create_parents`, and pass `frame` — the input handle, unchanged —
    /// downstream as this node's output.
    Produce { frame: F, path: Vec<u8>, encoded: Vec<u8>, create_parents: bool },
    /// This frame's activation failed: no file, no output frame.
    Fail { error: FrameError },
    /// Upstream failed: no work attempted, no output frame.
    NoFrame,
}

/// The filter instance's configuration: captured once at setup, read-only
/// for the life of the node.
pub struct FilterConfig {
    /// Output-path template, resolved per frame against the frame index.
    pub path_template: Vec<u8>,
    /// Whether missing parent directories of a resolved path are created
    /// before the file is; when false, a missing parent makes the file
    /// creation fail, and the frame with it.
    pub parents: bool,
}

impl FilterConfig {
    /// Validates the upstream stream's format and captures the
    /// configuration. Refuses anything but 8-bit integer RGB, and a
    /// missing path template; the template's own syntax is deliberately
    /// unchecked here — a malformed template fails per frame, at
    /// resolution. A missing or zero `parents` flag means "do not create
    /// directories"; any nonzero value means "create".
    pub fn new(format: &VideoFormat, path_template: Option<Vec<u8>>, parents: Option<i64>) -> (r:
        Result<FilterConfig, SetupError>)
        ensures
            r is Ok <==> (format.is_supported() && path_template is Some),
            !format.is_supported() ==> r == Err::<FilterConfig, SetupError>(
                SetupError::UnsupportedFormat,
            ),
            format.is_supported() && path_template is None ==> r == Err::<FilterConfig, SetupError>(
                SetupError::MissingPath,
            ),
            r is Ok ==> r.unwrap().path_template@ == path_template.unwrap()@,
            r is Ok ==> r.unwrap().parents == (parents is Some && parents.unwrap() != 0),
    {
        if !format.supported() {
            return Err(SetupError::UnsupportedFormat);
        }
        let template = match path_template {
            Some(t) => t,
            None => { return Err(SetupError::MissingPath) },
        };
        let parents_flag = match parents {
            Some(v) => v != 0,
            None => false,
        };
        Ok(FilterConfig { path_template: template, parents: parents_flag })
    }

    /// The planes of a second-phase activation are well-formed: each
    /// holds one byte per pixel of the reported dimensions, and the
    /// packed buffer they interleave into fits in memory.
    pub open spec fn activation_wf<F>(activation: Activation<F>) -> bool {
        activation matches Activation::AllFramesReady { width, height, red, green, blue, .. }
            ==> red@.len() == width * height && green@.len() == width * height && blue@.len()
            == width * height && 3 * (width as nat) * (height as nat) <= usize::MAX
    }

    /// The outcome owed to a second-phase activation: a malformed
    /// template fails the frame; then a dimension the container cannot
    /// hold fails it; otherwise the host is asked to write the encoded
    /// buffer at the resolved path — creating parent directories exactly
    /// when the instance was configured to — and to pass the input frame
    /// handle downstream unchanged.
    pub open spec fn ready_outcome<F>(
        self,
        n: i32,
        frame: F,
        width: u32,
        height: u32,
        red: Seq<u8>,
        green: Seq<u8>,
        blue: Seq<u8>,
        r: Outcome<F>,
    ) -> bool {
        let resolved = substitute(self.path_template@, n as nat);
        let dims_ok = 1 <= width <= MAX_DIMENSION && 1 <= height <= MAX_DIMENSION;
        &&& resolved is None ==> r == (Outcome::<F>::Fail { error: FrameError::InvalidTemplate })
        &&& resolved is Some && !dims_ok ==> r == (Outcome::<F>::Fail {
            error: FrameError::InvalidDimensions,
        })
        &&& resolved is Some && dims_ok ==> {
            &&& r matches Outcome::Produce { frame: out_frame, path, encoded, create_parents }
            &&& out_frame == frame
            &&& path@ == resolved.unwrap()
            &&& encoded@ == webp_lossless(pack_bytes(red, green, blue), width, height)
            &&& create_parents == self.parents
        }
    }

    /// One activation of the per-frame processor for frame index `n`.
    ///
    /// `Initial` requests the upstream frame at the same index and yields.
    /// `AllFramesReady` interleaves the three planes into the packed
    /// pixel buffer, resolves the path template against `n`, encodes the
    /// buffer losslessly, and asks the host to write the file and pass
    /// the untouched input frame downstream; a malformed template or an
    /// unencodable dimension fails the frame instead, before any side
    /// effect. `Error` does no work and produces nothing.
    pub fn activate<'a, F>(&self, n: i32, activation: Activation<'a, F>) -> (r: Outcome<F>)
        requires
            n >= 0,
            Self::activation_wf(activation),
        ensures
            (activation is Initial ==> r == (Outcome::<F>::Request { index: n })),
            (activation matches Activation::AllFramesReady { frame, width, height, red, green, blue }
                ==> self.ready_outcome(n, frame, width, height, red@, green@, blue@, r)),
            (activation is Error ==> r == (Outcome::<F>::NoFrame)),
    {
        match activation {
            Activation::Initial => Outcome::Request { index: n },
            Activation::AllFramesReady { frame, width, height, red, green, blue } => {
                let path = match resolve_template(self.path_template.as_slice(), n as u64) {
                    Ok(p) => p,
                    Err(_) => { return Outcome::Fail { error: FrameError::InvalidTemplate } },
                };
                let packed = pack_rgb(red, green, blue, width, height);
                match encode_rgb_webp(&packed, width, height) {
                    Some(encoded) => Outcome::Produce {
                        frame,
                        path,
                        encoded,
                        create_parents: self.parents,
                    },
                    None => Outcome::Fail { error: FrameError::InvalidDimensions },
                }
            },
            Activation::Error => Outcome::NoFrame,
        }
    }
}

} // verus!
