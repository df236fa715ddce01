//! Attachment-format selection for the render pass: find the first
//! candidate format whose tiling features include what the attachment
//! needs, and in particular the depth attachment's format.

use vstd::prelude::*;

verus! {

/// Identifier of the 32-bit float depth format.
pub const FORMAT_D32_SFLOAT: u32 = 126;

/// Identifier of the 24-bit depth, 8-bit stencil format.
pub const FORMAT_D24_UNORM_S8_UINT: u32 = 129;

/// Identifier of the 32-bit float depth, 8-bit stencil format.
pub const FORMAT_D32_SFLOAT_S8_UINT: u32 = 130;

/// Feature bit: the format can back a depth/stencil attachment.
pub const FEATURE_DEPTH_STENCIL_ATTACHMENT: u32 = 0x200;

/// How an image's texels are laid out.
#[derive(Clone, Copy, Debug, PartialEq, Eq, Structural)]
pub enum Tiling {
    Linear,
    Optimal,
}

/// What the device reports about one candidate format.
#[derive(Clone, Copy, Debug, PartialEq, Eq, Structural)]
pub struct FormatFeatures {
    /// The candidate format's identifier.
    pub format: u32,
    /// Feature bitmask under linear tiling.
    pub linear_tiling_features: u32,
    /// Feature bitmask under optimal tiling.
    pub optimal_tiling_features: u32,
}

/// Why format selection can fail.
#[derive(Clone, Copy, Debug, PartialEq, Eq, Structural)]
pub enum RenderPassError {
    /// No candidate format supports the required features.
    SupportError,
}

impl RenderPassError {
    /// A short description of the error.
    pub fn message(&self) -> (r: &'static str)
        ensures
            r@ =~= "failed to find supported format"@,
    {
        "failed to find supported format"
    }
}

/// The feature bitmask a candidate offers under the given tiling.
pub open spec fn features_under(candidate: FormatFeatures, tiling: Tiling) -> u32 {
    match tiling {
        Tiling::Linear => candidate.linear_tiling_features,
        Tiling::Optimal => candidate.optimal_tiling_features,
    }
}

/// Whether a candidate offers every required feature under the tiling.
pub open spec fn format_supports(candidate: FormatFeatures, tiling: Tiling, features: u32) -> bool {
    features_under(candidate, tiling) & features == features
}

/// Picks the first candidate format that supports all the required
/// features under the given tiling.
pub fn get_supported_format(
    candidates: &Vec<FormatFeatures>,
    tiling: Tiling,
    features: u32,
) -> (r: Result<u32, RenderPassError>)
    ensures
        match r {
            Ok(format) => exists|i: int| {
                &&& 0 <= i < candidates@.len()
                &&& format_supports(#[trigger] candidates@[i], tiling, features)
                &&& format == candidates@[i].format
                &&& (forall|j: int| 0 <= j < i
                    ==> !format_supports(#[trigger] candidates@[j], tiling, features))
            },
            Err(e) => {
                &&& e == RenderPassError::SupportError
                &&& (forall|i: int| 0 <= i < candidates@.len()
                    ==> !format_supports(#[trigger] candidates@[i], tiling, features))
            },
        },
{
    let n = candidates.len();
    for i in 0..n
        invariant
            n == candidates@.len(),
            forall|j: int| 0 <= j < i
                ==> !format_supports(#[trigger] candidates@[j], tiling, features),
    {
        let available = match tiling {
            Tiling::Linear => candidates[i].linear_tiling_features,
            Tiling::Optimal => candidates[i].optimal_tiling_features,
        };
        if available & features == features {
            return Ok(candidates[i].format);
        }
    }
    Err(RenderPassError::SupportError)
}

/// The depth formats the renderer tries, in preference order.
pub open spec fn depth_format_candidates() -> Seq<u32> {
    seq![FORMAT_D32_SFLOAT, FORMAT_D32_SFLOAT_S8_UINT, FORMAT_D24_UNORM_S8_UINT]
}

/// Lists the depth formats the renderer tries, in preference order.
pub fn depth_candidate_formats() -> (r: Vec<u32>)
    ensures
        r@ == depth_format_candidates(),
{
    let mut v: Vec<u32> = Vec::new();
    v.push(FORMAT_D32_SFLOAT);
    v.push(FORMAT_D32_SFLOAT_S8_UINT);
    v.push(FORMAT_D24_UNORM_S8_UINT);
    proof {
        assert(v@ =~= depth_format_candidates());
    }
    v
}

/// Picks the depth attachment's format: the first of the renderer's
/// depth candidates that can back a depth/stencil attachment under
/// optimal tiling. `candidates` carries the device's reported features
/// for each candidate format, in the candidates' order.
pub fn get_depth_format(candidates: &Vec<FormatFeatures>) -> (r: Result<u32, RenderPassError>)
    requires
        candidates@.len() == depth_format_candidates().len(),
        forall|k: int| 0 <= k < candidates@.len()
            ==> (#[trigger] candidates@[k]).format == depth_format_candidates()[k],
    ensures
        match r {
            Ok(format) => exists|i: int| {
                &&& 0 <= i < candidates@.len()
                &&& format_supports(
                    #[trigger] candidates@[i],
                    Tiling::Optimal,
                    FEATURE_DEPTH_STENCIL_ATTACHMENT,
                )
                &&& format == depth_format_candidates()[i]
                &&& (forall|j: int| 0 <= j < i ==> !format_supports(
                    #[trigger] candidates@[j],
                    Tiling::Optimal,
                    FEATURE_DEPTH_STENCIL_ATTACHMENT,
                ))
            },
            Err(e) => {
                &&& e == RenderPassError::SupportError
                &&& (forall|i: int| 0 <= i < candidates@.len() ==> !format_supports(
                    #[trigger] candidates@[i],
                    Tiling::Optimal,
                    FEATURE_DEPTH_STENCIL_ATTACHMENT,
                ))
            },
        },
{
    get_supported_format(candidates, Tiling::Optimal, FEATURE_DEPTH_STENCIL_ATTACHMENT)
}

} // verus!
