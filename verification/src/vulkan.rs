//! What the bridge needs from the Vulkan bindings: version numbers and result codes.

use vstd::prelude::*;

verus! {

/// A packed Vulkan version number: the major number above bit 22, the minor number above
/// bit 12, the patch number below.
pub open spec fn packed_version(major: u32, minor: u32, patch: u32) -> u32 {
    (major << 22u32) | (minor << 12u32) | patch
}

/// Packs a version number with `ash::vk::make_version`.
///
/// Trusted: the result is the three numbers shifted and or-ed as `packed_version` says,
/// which is the whole body of the function in ash.
#[verifier::external_body]
#[allow(deprecated)]
pub(crate) fn make_version(major: u32, minor: u32, patch: u32) -> (version: u32)
    ensures
        version == packed_version(major, minor, patch),
{
    ash::vk::make_version(major, minor, patch)
}

/// The raw code of `ash::vk::Result::SUCCESS`, read with `ash::vk::Result::as_raw`.
///
/// Trusted: the code is 0, as the constant is declared in ash.
#[verifier::external_body]
pub(crate) fn success_code() -> (code: i32)
    ensures
        code == 0,
{
    ash::vk::Result::SUCCESS.as_raw()
}

} // verus!
