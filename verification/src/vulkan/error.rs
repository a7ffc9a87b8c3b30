//! Errors of the importer.

use vstd::prelude::*;

use crate::text::{decimal, Message};

verus! {

/// Why an import failed.
#[derive(Debug)]
#[non_exhaustive]
pub enum VulkanImportError {
    PoolSaturated { pool: &'static str, limit: usize },
    AllocationSizeMismatch { declared: u64, observed: u64 },
    AllocationSizeProbe(String),
    AllocationSize(String),
    Other(String),
}

/// What an import error says.
pub ghost enum ImportFault {
    PoolSaturated { pool: Seq<char>, limit: usize },
    AllocationSizeMismatch { declared: u64, observed: u64 },
    AllocationSizeProbe(Seq<char>),
    AllocationSize(Seq<char>),
    Other(Seq<char>),
}

impl View for VulkanImportError {
    type V = ImportFault;

    open spec fn view(&self) -> ImportFault {
        match *self {
            VulkanImportError::PoolSaturated { pool, limit } => ImportFault::PoolSaturated {
                pool: pool@,
                limit,
            },
            VulkanImportError::AllocationSizeMismatch { declared, observed } =>
                ImportFault::AllocationSizeMismatch { declared, observed },
            VulkanImportError::AllocationSizeProbe(message) => ImportFault::AllocationSizeProbe(
                message@,
            ),
            VulkanImportError::AllocationSize(message) => ImportFault::AllocationSize(message@),
            VulkanImportError::Other(message) => ImportFault::Other(message@),
        }
    }
}

impl ImportFault {
    /// The fault is about the size of the producer's allocation.
    pub open spec fn concerns_allocation_size(self) -> bool {
        self is AllocationSizeMismatch || self is AllocationSizeProbe || self is AllocationSize
    }

    /// The diagnostic that `VulkanImportError::message` returns.
    pub open spec fn text(self) -> Seq<char> {
        match self {
            ImportFault::PoolSaturated { pool, limit } => "Vulkan "@ + pool
                + " pool is saturated at "@ + decimal(limit as nat) + " slots"@,
            ImportFault::AllocationSizeMismatch { declared, observed } =>
                "DMA-BUF declared allocation size "@ + decimal(declared as nat)
                    + " does not match fd-backed allocation size "@ + decimal(observed as nat),
            ImportFault::AllocationSizeProbe(message) => message,
            ImportFault::AllocationSize(message) => message,
            ImportFault::Other(message) => message,
        }
    }
}

/// `result` is what `expected` says.
pub open spec fn imports<T>(
    result: Result<T, VulkanImportError>,
    expected: Result<T, ImportFault>,
) -> bool {
    match (result, expected) {
        (Ok(value), Ok(wanted)) => value == wanted,
        (Err(error), Err(fault)) => error@ == fault,
        _ => false,
    }
}

impl VulkanImportError {
    /// Tests that the error is about the size of the producer's allocation.
    pub fn is_allocation_size(&self) -> (about_size: bool)
        ensures
            about_size == self@.concerns_allocation_size(),
    {
        match self {
            VulkanImportError::AllocationSizeMismatch { .. }
            | VulkanImportError::AllocationSizeProbe(_)
            | VulkanImportError::AllocationSize(_) => true,
            VulkanImportError::PoolSaturated { .. } | VulkanImportError::Other(_) => false,
        }
    }

    /// The diagnostic for a log.
    pub fn message(&self) -> (message: String)
        ensures
            message@ == self@.text(),
    {
        match self {
            VulkanImportError::PoolSaturated { pool, limit } => Message::new("Vulkan ").text(
                pool,
            ).text(" pool is saturated at ").number(*limit as u64).text(" slots").done(),
            VulkanImportError::AllocationSizeMismatch { declared, observed } => Message::new(
                "DMA-BUF declared allocation size ",
            ).number(*declared).text(" does not match fd-backed allocation size ").number(
                *observed,
            ).done(),
            VulkanImportError::AllocationSizeProbe(message) => message.clone(),
            VulkanImportError::AllocationSize(message) => message.clone(),
            VulkanImportError::Other(message) => message.clone(),
        }
    }
}

} // verus!
