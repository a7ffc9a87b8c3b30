//! The identity of a producer's buffer, with the size that its file proves.

use vstd::prelude::*;

use crate::probe::DmaBufProbe;
use crate::text::Message;
use crate::vulkan::error::{imports, ImportFault, VulkanImportError};

verus! {

/// A buffer whose declared size is the size that its file has.
#[derive(Clone, Copy, Debug, PartialEq, Eq, Structural)]
pub struct DmaBufIdentity {
    pub device: u64,
    pub inode: u64,
    pub allocation_size: u64,
}

/// What `identity_from_probe` returns. `Err` in `probe` is the diagnostic of a probe that failed.
pub open spec fn identity_verdict(declared_size: u64, probe: Result<DmaBufProbe, Seq<char>>) -> Result<
    DmaBufIdentity,
    ImportFault,
> {
    match probe {
        Err(text) => Err(ImportFault::AllocationSizeProbe("Vulkan "@ + text)),
        Ok(observed) => if declared_size != observed.allocation_size {
            Err(
                ImportFault::AllocationSizeMismatch {
                    declared: declared_size,
                    observed: observed.allocation_size,
                },
            )
        } else {
            Ok(
                DmaBufIdentity {
                    device: observed.device,
                    inode: observed.inode,
                    allocation_size: observed.allocation_size,
                },
            )
        },
    }
}

/// The probe with its diagnostic as text.
pub open spec fn probe_view(probe: Result<DmaBufProbe, String>) -> Result<DmaBufProbe, Seq<char>> {
    match probe {
        Ok(observed) => Ok(observed),
        Err(message) => Err(message@),
    }
}

/// Holds what a probe found against the size that a descriptor declares.
pub fn identity_from_probe(declared_size: u64, probe: Result<DmaBufProbe, String>) -> (result:
    Result<DmaBufIdentity, VulkanImportError>)
    ensures
        imports(result, identity_verdict(declared_size, probe_view(probe))),
{
    match probe {
        Err(message) => Err(
            VulkanImportError::AllocationSizeProbe(
                Message::new("Vulkan ").text(message.as_str()).done(),
            ),
        ),
        Ok(observed) => {
            if declared_size != observed.allocation_size {
                return Err(
                    VulkanImportError::AllocationSizeMismatch {
                        declared: declared_size,
                        observed: observed.allocation_size,
                    },
                );
            }
            Ok(
                DmaBufIdentity {
                    device: observed.device,
                    inode: observed.inode,
                    allocation_size: observed.allocation_size,
                },
            )
        },
    }
}

/// What `checked_identity` returns.
pub open spec fn identity_of(
    source_fd: i32,
    declared_size: u64,
    probe: Result<DmaBufProbe, Seq<char>>,
) -> Result<DmaBufIdentity, ImportFault> {
    if source_fd < 0 {
        Err(ImportFault::AllocationSizeProbe("Vulkan DMA-BUF identity requires a valid fd"@))
    } else {
        identity_verdict(declared_size, probe)
    }
}

/// The identity of the buffer behind `source_fd`, given what a probe of the descriptor found. The
/// probe does not matter where the descriptor is negative.
pub fn checked_identity(
    source_fd: i32,
    declared_size: u64,
    probe: Result<DmaBufProbe, String>,
) -> (result: Result<DmaBufIdentity, VulkanImportError>)
    ensures
        imports(result, identity_of(source_fd, declared_size, probe_view(probe))),
{
    if source_fd < 0 {
        return Err(
            VulkanImportError::AllocationSizeProbe(
                "Vulkan DMA-BUF identity requires a valid fd".to_owned(),
            ),
        );
    }
    identity_from_probe(declared_size, probe)
}

/// An identity is that of the probed buffer, and the declared size is the one that the buffer has.
pub proof fn identities_are_backed_by_the_descriptor(
    source_fd: i32,
    declared_size: u64,
    probe: Result<DmaBufProbe, Seq<char>>,
)
    ensures
        identity_of(source_fd, declared_size, probe) matches Ok(identity) ==> {
            &&& source_fd >= 0
            &&& probe matches Ok(observed) && identity == (DmaBufIdentity {
                device: observed.device,
                inode: observed.inode,
                allocation_size: declared_size,
            }) && observed.allocation_size == declared_size
        },
{
}

/// `probe` may return `outcome`, and `result` is what follows from it.
pub open spec fn identity_follows<P: FnOnce() -> Result<DmaBufProbe, String>>(
    declared_size: u64,
    probe: P,
    outcome: Result<DmaBufProbe, String>,
    result: Result<DmaBufIdentity, VulkanImportError>,
) -> bool {
    call_ensures(probe, (), outcome) && imports(
        result,
        identity_verdict(declared_size, probe_view(outcome)),
    )
}

/// The identity of the buffer behind `source_fd`. `probe` reads it through the file descriptor, and
/// is not called for one that is negative. A size that the file does not prove is refused.
pub fn verified_dmabuf_identity<P>(source_fd: i32, declared_size: u64, probe: P) -> (result: Result<
    DmaBufIdentity,
    VulkanImportError,
>) where P: FnOnce() -> Result<DmaBufProbe, String>
    requires
        source_fd >= 0 ==> call_requires(probe, ()),
    ensures
        source_fd < 0 ==> imports(
            result,
            Err(ImportFault::AllocationSizeProbe("Vulkan DMA-BUF identity requires a valid fd"@)),
        ),
        source_fd >= 0 ==> exists|outcome: Result<DmaBufProbe, String>|
            identity_follows(declared_size, probe, outcome, result),
        result matches Ok(identity) ==> identity.allocation_size == declared_size,
{
    if source_fd < 0 {
        return Err(
            VulkanImportError::AllocationSizeProbe(
                "Vulkan DMA-BUF identity requires a valid fd".to_owned(),
            ),
        );
    }
    let outcome = probe();
    let ghost observed = outcome;
    let result = identity_from_probe(declared_size, outcome);
    assert(identity_follows(declared_size, probe, observed, result));
    result
}

} // verus!
