//! Pixel dimensions and the size rule every render target enforces.

use vstd::prelude::*;
use crate::error::RenderError;

verus! {

/// A width and height in pixels.
#[derive(Clone, Copy, Debug, PartialEq, Eq, Structural)]
pub struct Dimensions {
    pub width: u32,
    pub height: u32,
}

impl Dimensions {
    /// The only sizes a target accepts: both sides non-zero.
    pub open spec fn is_valid(self) -> bool {
        self.width > 0 && self.height > 0
    }

    pub fn new(width: u32, height: u32) -> (r: Dimensions)
        ensures
            r == (Dimensions { width, height }),
    {
        Dimensions { width, height }
    }
}

/// Rejects any size with a zero side, exactly as context and target creation do.
pub fn validate_size(size: &Dimensions) -> (r: Result<(), RenderError>)
    ensures
        r == (if size.is_valid() {
            Ok::<(), RenderError>(())
        } else {
            Err::<(), RenderError>(RenderError::InvalidSize)
        }),
{
    if size.width == 0 || size.height == 0 {
        Err(RenderError::InvalidSize)
    } else {
        Ok(())
    }
}

} // verus!
