//! The depth attachment's format.
use vstd::prelude::*;

use crate::rendering::vulkan::{
    FORMAT_D24_UNORM_S8_UINT, FORMAT_D32_SFLOAT_S8_UINT, FORMAT_FEATURE_DEPTH_STENCIL_ATTACHMENT,
    FORMAT_UNDEFINED,
};

verus! {

/// The depth formats the renderer tries, most preferred first: 32-bit float depth with stencil,
/// then 24-bit normalised depth with stencil.
pub fn depth_format_candidates() -> (formats: Vec<i32>)
    ensures
        formats@ == seq![FORMAT_D32_SFLOAT_S8_UINT, FORMAT_D24_UNORM_S8_UINT],
{
    let mut formats = Vec::new();
    formats.push(FORMAT_D32_SFLOAT_S8_UINT);
    formats.push(FORMAT_D24_UNORM_S8_UINT);
    assert(formats@ =~= seq![FORMAT_D32_SFLOAT_S8_UINT, FORMAT_D24_UNORM_S8_UINT]);
    formats
}

/// Optimal-tiling features that allow a depth-stencil attachment.
pub open spec fn supports_depth_attachment(features: u32) -> bool {
    features & FORMAT_FEATURE_DEPTH_STENCIL_ATTACHMENT == FORMAT_FEATURE_DEPTH_STENCIL_ATTACHMENT
}

/// The first candidate whose optimal-tiling features (`optimal_tiling_features[i]` for
/// `candidates[i]`) allow a depth-stencil attachment, or `FORMAT_UNDEFINED` when none does.
pub fn choose_depth_format(candidates: &Vec<i32>, optimal_tiling_features: &Vec<u32>) -> (format: i32)
    requires
        candidates@.len() == optimal_tiling_features@.len(),
    ensures
        (exists|i: int| 0 <= i < candidates@.len() && supports_depth_attachment(#[trigger] optimal_tiling_features@[i])) ==>
            exists|i: int| 0 <= i < candidates@.len() && supports_depth_attachment(optimal_tiling_features@[i])
                && format == candidates@[i]
                && forall|k: int| 0 <= k < i ==> !supports_depth_attachment(#[trigger] optimal_tiling_features@[k]),
        !(exists|i: int| 0 <= i < candidates@.len() && supports_depth_attachment(#[trigger] optimal_tiling_features@[i])) ==>
            format == FORMAT_UNDEFINED,
{
    let mut i: usize = 0;
    while i < candidates.len()
        invariant
            i <= candidates@.len(),
            candidates@.len() == optimal_tiling_features@.len(),
            forall|k: int| 0 <= k < i ==> !supports_depth_attachment(#[trigger] optimal_tiling_features@[k]),
        decreases candidates@.len() - i,
    {
        if optimal_tiling_features[i] & FORMAT_FEATURE_DEPTH_STENCIL_ATTACHMENT == FORMAT_FEATURE_DEPTH_STENCIL_ATTACHMENT {
            return candidates[i];
        }
        i = i + 1;
    }
    FORMAT_UNDEFINED
}

} // verus!
