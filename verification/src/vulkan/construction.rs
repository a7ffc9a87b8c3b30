//! Device objects are made one call at a time. What follows each call is decided here: the next
//! call, or the diagnostic together with everything that the failed attempt leaves to destroy.

use vstd::prelude::*;

use crate::text::Message;
use crate::vulkan::error::{ImportFault, VulkanImportError};
use crate::vulkan::resources::DeviceObject;
use crate::vulkan::result::{name_of_result, result_name};

verus! {

/// A failed attempt: why, and what to destroy in which order.
#[derive(Debug)]
pub struct BuildFailure {
    pub error: VulkanImportError,
    pub destroy: Vec<DeviceObject>,
}

/// The attempt failed with `fault`, and leaves `objects` to destroy.
pub open spec fn fails<T>(
    result: Result<T, BuildFailure>,
    fault: ImportFault,
    objects: Seq<DeviceObject>,
) -> bool {
    match result {
        Ok(_) => false,
        Err(failure) => failure.error@ == fault && failure.destroy@ == objects,
    }
}

/// A diagnostic about something with a label that ends in the name of a result code.
pub open spec fn labelled_text(
    before: Seq<char>,
    label: Seq<char>,
    after: Seq<char>,
    code: i32,
) -> Seq<char> {
    before + label + after + result_name(code)
}

/// The diagnostic for a call on something with a label.
pub fn labelled_failure(before: &str, label: &str, after: &str, code: i32) -> (message: String)
    ensures
        message@ == labelled_text(before@, label@, after@, code),
{
    Message::new(before).text(label).text(after).text(name_of_result(code).as_str()).done()
}

/// A failed attempt that was no fault of the allocation.
pub fn failed<T>(message: String, destroy: Vec<DeviceObject>) -> (result: Result<T, BuildFailure>)
    ensures
        fails(result, ImportFault::Other(message@), destroy@),
{
    Err(BuildFailure { error: VulkanImportError::Other(message), destroy })
}

} // verus!
