use crate::error::XrError;
use crate::util::enumerate;
use vstd::prelude::*;

verus! {

/// Enumerates the extensions of the runtime, of which there are none at present: the
/// count is reported as zero, the call succeeds, and the buffer stays as it was. The
/// layer's name is not looked at.
pub fn xrEnumerateInstanceExtensionProperties<I: Copy>(
    _layer_name: Option<&[u8]>,
    input_count: u32,
    output_count: &mut Option<u32>,
    items_ptr: Option<&mut [I]>,
) -> (outcome: Result<(), XrError>)
    requires
        items_ptr matches Some(buffer) ==> buffer@.len() >= input_count,
    ensures
        outcome is Ok,
        *final(output_count) == Some(0u32),
        items_ptr matches Some(buffer) ==> final(buffer)@ == buffer@,
{
    let extensions: Vec<I> = Vec::new();
    enumerate(input_count, output_count, items_ptr, extensions.as_slice())
}

} // verus!
