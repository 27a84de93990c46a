use vstd::prelude::*;

verus! {

/// A version as one number: the major part in the highest 16 bits, the minor part in the
/// next 16, and the patch in the lowest 32.
pub open spec fn version_number(major: u16, minor: u16, patch: u32) -> u64 {
    ((major as u64) << 48) | ((minor as u64) << 32) | (patch as u64)
}

/// Packs a version with `openxr_sys::Version::new` and reads the number with `into_raw`:
/// the three parts side by side, the major part highest.
#[verifier::external_body]
pub(crate) fn pack_version(major: u16, minor: u16, patch: u32) -> (number: u64)
    ensures
        number == version_number(major, minor, patch),
{
    openxr_sys::Version::new(major, minor, patch).into_raw()
}

/// The version of the interface that the bindings are made for,
/// `openxr_sys::CURRENT_API_VERSION`, as a number: version 1.1.58.
#[verifier::external_body]
pub(crate) fn current_api_version() -> (number: u64)
    ensures
        number == version_number(1, 1, 58),
{
    openxr_sys::CURRENT_API_VERSION.into_raw()
}

/// Packs the three parts of a version into one number.
pub fn make_version(major: u16, minor: u16, patch: u32) -> (number: u64)
    ensures
        number == version_number(major, minor, patch),
{
    pack_version(major, minor, patch)
}

/// The version of the interface that the runtime implements.
pub fn api_version() -> (number: u64)
    ensures
        number == version_number(1, 1, 58),
{
    current_api_version()
}

} // verus!
