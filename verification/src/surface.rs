use vstd::prelude::*;

verus! {

/// The dimension actually applied to the surface for a requested one: the
/// request itself, raised to 1 where it was 0. A zero-sized surface
/// configuration is a fatal error on most GPU backends, so the renderer
/// never lets one through.
pub open spec fn clamp_dim(x: u32) -> u32 {
    if x == 0 {
        1
    } else {
        x
    }
}

/// The stored surface size after a resize request, given the size stored
/// before it: the clamped request, whatever was stored.
pub open spec fn resized_size(prior: (u32, u32), w: u32, h: u32) -> (u32, u32) {
    (clamp_dim(w), clamp_dim(h))
}

/// Raises a requested dimension to the 1-pixel floor the surface needs.
pub fn clamp_dimension(x: u32) -> (r: u32)
    ensures
        r == clamp_dim(x),
        1 <= r,
{
    if x == 0 {
        1
    } else {
        x
    }
}

/// A requested size of at least 1×1 is applied to the surface exactly:
/// clamping never changes a valid dimension.
pub proof fn lemma_resize_exact(w: u32, h: u32)
    requires
        1 <= w,
        1 <= h,
    ensures
        clamp_dim(w) == w,
        clamp_dim(h) == h,
{
}

/// Whatever size is requested, the size applied to the surface is at least
/// 1×1: a zero dimension never reaches the surface.
pub proof fn lemma_resize_clamped(w: u32, h: u32)
    ensures
        1 <= clamp_dim(w),
        1 <= clamp_dim(h),
{
}

/// Resizing twice with the same dimensions ends in the same stored size as
/// resizing once: a repeated identical resize changes nothing beyond
/// re-applying the configuration already in force.
pub proof fn lemma_resize_idempotent(prior: (u32, u32), w: u32, h: u32)
    ensures
        resized_size(resized_size(prior, w, h), w, h) == resized_size(prior, w, h),
{
}

} // verus!
