//! Vulkan result codes.

use vstd::prelude::*;

verus! {

/// The code of success.
pub const SUCCESS: i32 = 0;

/// The code of a fence or query that has not completed.
pub const NOT_READY: i32 = 1;

/// The code of a host that is out of memory.
pub const ERROR_OUT_OF_HOST_MEMORY: i32 = -1;

/// The code of a device that is out of memory.
pub const ERROR_OUT_OF_DEVICE_MEMORY: i32 = -2;

/// The code of a lost device.
pub const ERROR_DEVICE_LOST: i32 = -4;

/// The name of a result code in diagnostics.
pub uninterp spec fn result_name(code: i32) -> Seq<char>;

/// The name of a result code: what `Debug` of `ash::vk::Result` writes for the value that
/// `ash::vk::Result::from_raw` makes of the code. Which text that is, is left to `ash`; it depends
/// on the code alone.
#[verifier::external_body]
pub(crate) fn name_of_result(code: i32) -> (name: String)
    ensures
        name@ == result_name(code),
{
    format!("{:?}", ash::vk::Result::from_raw(code))
}

/// A diagnostic that ends in the name of a result code.
pub open spec fn failure_text(prefix: Seq<char>, code: i32) -> Seq<char> {
    prefix + result_name(code)
}

/// The diagnostic for a call that returned `code`.
pub fn failure(prefix: &str, code: i32) -> (message: String)
    ensures
        message@ == failure_text(prefix@, code),
{
    prefix.to_owned().concat(name_of_result(code).as_str())
}

} // verus!
