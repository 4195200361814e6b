//! Context configuration decisions: how a presentation surface is
//! configured from what the hardware offers.

use vstd::prelude::*;
use crate::size::Dimensions;

verus! {

/// How the presentation surface is to be configured: which of the surface's
/// supported formats to use, at what size, and with the fixed presentation
/// policy (continuous, vsync-equivalent presentation with at most two
/// frames of latency).
#[derive(Clone, Copy, Debug, PartialEq, Eq, Structural)]
pub struct SurfaceConfigPlan {
    pub format_index: usize,
    pub width: u32,
    pub height: u32,
    /// Continuous, vsync-equivalent presentation: frames queue first-in,
    /// first-out. This policy is fixed; no other mode is ever configured.
    pub vsync: bool,
    pub desired_maximum_frame_latency: u32,
}

/// Whether some supported format before `i` prefers sRGB.
pub open spec fn srgb_before(srgb_flags: Seq<bool>, i: int) -> bool {
    exists|k: int| 0 <= k < i && srgb_flags[k]
}

/// Chooses the surface configuration from the supported formats, given as
/// their sRGB flags in the surface's preference order: the first
/// sRGB-capable format, or the first format of all when none is, at the
/// target's size, with bounded two-frame latency. A surface offering no
/// formats at all yields nothing.
pub fn plan_surface_config(size: &Dimensions, srgb_flags: &Vec<bool>) -> (r: Option<
    SurfaceConfigPlan,
>)
    ensures
        r is Some <==> srgb_flags@.len() > 0,
        r matches Some(p) ==> {
            &&& p.width == size.width
            &&& p.height == size.height
            &&& p.vsync
            &&& p.desired_maximum_frame_latency == 2
            &&& (p.format_index as int) < srgb_flags@.len()
            &&& (srgb_before(srgb_flags@, srgb_flags@.len() as int) ==> srgb_flags@.index(
                p.format_index as int,
            ) && !srgb_before(srgb_flags@, p.format_index as int))
            &&& (!srgb_before(srgb_flags@, srgb_flags@.len() as int) ==> p.format_index == 0)
        },
{
    if srgb_flags.len() == 0 {
        return None;
    }
    let mut i: usize = 0;
    while i < srgb_flags.len()
        invariant
            i <= srgb_flags@.len(),
            !srgb_before(srgb_flags@, i as int),
        decreases srgb_flags@.len() - i,
    {
        if srgb_flags[i] {
            proof {
                assert(srgb_before(srgb_flags@, srgb_flags@.len() as int)) by {
                    assert(0 <= i < srgb_flags@.len() && srgb_flags@[i as int]);
                }
            }
            return Some(
                SurfaceConfigPlan {
                    format_index: i,
                    width: size.width,
                    height: size.height,
                    vsync: true,
                    desired_maximum_frame_latency: 2,
                },
            );
        }
        proof {
            assert forall|k: int| 0 <= k < i + 1 implies !(#[trigger] srgb_flags@[k]) by {
                if k < i {
                    assert(!srgb_before(srgb_flags@, i as int));
                    assert(!srgb_flags@[k]) by {
                        if srgb_flags@[k] {
                            assert(srgb_before(srgb_flags@, i as int));
                        }
                    }
                }
            }
            assert(!srgb_before(srgb_flags@, i + 1)) by {
                if srgb_before(srgb_flags@, i + 1) {
                    let k = choose|k: int| 0 <= k < i + 1 && srgb_flags@[k];
                }
            }
        }
        i = i + 1;
    }
    Some(
        SurfaceConfigPlan {
            format_index: 0,
            width: size.width,
            height: size.height,
            vsync: true,
            desired_maximum_frame_latency: 2,
        },
    )
}

} // verus!
