//! The error taxonomy shared by every operation of the renderer core.

use vstd::prelude::*;

verus! {

/// Every way an operation of the renderer core can fail.
///
/// Each operation's contract states exactly which of these it returns and on
/// which inputs. `SurfaceAcquireFailed` is the only transient error: the
/// caller may reconfigure the surface and retry; every other error is terminal
/// for the attempted operation but leaves already-loaded state untouched.
#[derive(Clone, Copy, Debug, PartialEq, Eq, Structural)]
pub enum RenderError {
    /// A requested size had a zero width or height.
    InvalidSize,
    /// No hardware adapter satisfied the compatibility requirements.
    AdapterUnavailable,
    /// The logical device and command queue could not be obtained.
    DeviceRequestFailed,
    /// The presentation surface lost its drawable; retryable by the caller.
    SurfaceAcquireFailed,
    /// A pipeline identifier was not present in the pipeline registry.
    PipelineNotFound,
    /// A model identifier was not present in a pipeline's model registry.
    ModelNotFound,
    /// Geometry or texture acquisition failed while loading a model.
    ModelLoadFailed,
    /// An image could not be decoded into RGBA8 pixels.
    TextureDecodeFailed,
    /// The exported frame could not be encoded or written.
    FileWriteFailed,
}

impl RenderError {
    /// A human-readable description of the error.
    pub fn describe(&self) -> (r: &'static str)
        ensures
            r@.len() > 0,
    {
        proof {
            reveal_strlit("invalid size: width and height must both be non-zero");
            reveal_strlit("no compatible hardware adapter is available");
            reveal_strlit("requesting the device and queue failed");
            reveal_strlit("acquiring the surface texture failed");
            reveal_strlit("pipeline not found");
            reveal_strlit("model not found");
            reveal_strlit("loading the model failed");
            reveal_strlit("decoding the texture failed");
            reveal_strlit("writing the rendered image failed");
        }
        match self {
            RenderError::InvalidSize => "invalid size: width and height must both be non-zero",
            RenderError::AdapterUnavailable => "no compatible hardware adapter is available",
            RenderError::DeviceRequestFailed => "requesting the device and queue failed",
            RenderError::SurfaceAcquireFailed => "acquiring the surface texture failed",
            RenderError::PipelineNotFound => "pipeline not found",
            RenderError::ModelNotFound => "model not found",
            RenderError::ModelLoadFailed => "loading the model failed",
            RenderError::TextureDecodeFailed => "decoding the texture failed",
            RenderError::FileWriteFailed => "writing the rendered image failed",
        }
    }
}

} // verus!
