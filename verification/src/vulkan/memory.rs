//! Memory for images and buffers: the producer's, which is imported, and the importer's own.

use vstd::prelude::*;

use crate::text::{decimal, Message};
use crate::vulkan::construction::{failed, fails, BuildFailure};
use crate::vulkan::error::{imports, ImportFault, VulkanImportError};
use crate::vulkan::flags::{
    BufferUsageFlags, ImageCreateFlags, ImageUsageFlags, PixelFormat, RawHandle,
};
use crate::vulkan::image::{
    nv12_image_plan, packed_image_plan, plan_nv12_image, plan_packed_image, DirectImagePlan,
};
use crate::vulkan::import::Nv12ImportPlan;
use crate::vulkan::inventory::{
    imported_memory_type, memory_type_verdict, select_memory_type,
};
use crate::vulkan::resources::{
    BufferAllocation, DeviceObject, ImageAllocation, Nv12SourceAllocation, PackedSourceAllocation,
};
use crate::vulkan::result::{failure, failure_text};
use crate::vulkan::types::{
    Nv12ImportStrategy, Nv12SharedObjectLayout, PackedImageImport, PackedImageImportStrategy,
    STAGED_NV12_SOURCE_TEXEL_FORMAT, STAGED_NV12_SOURCE_USAGE, STAGED_PACKED_SOURCE_TEXEL_FORMAT,
    STAGED_PACKED_SOURCE_USAGE, TRANSFER_NV12_SOURCE_USAGE,
};

verus! {

/// What imported memory is bound to.
#[derive(Clone, Copy, Debug, PartialEq, Eq, Structural)]
pub enum ImportTarget {
    Image(RawHandle),
    Buffer(RawHandle),
}

impl ImportTarget {
    /// The target as an object to destroy.
    pub open spec fn object(self) -> DeviceObject {
        match self {
            ImportTarget::Image(handle) => DeviceObject::Image(handle),
            ImportTarget::Buffer(handle) => DeviceObject::Buffer(handle),
        }
    }

    fn as_object(self) -> (object: DeviceObject)
        ensures
            object == self.object(),
    {
        match self {
            ImportTarget::Image(handle) => DeviceObject::Image(handle),
            ImportTarget::Buffer(handle) => DeviceObject::Buffer(handle),
        }
    }

    /// The diagnostic for memory that is smaller than the target needs.
    pub open spec fn too_small_text(self, size: u64, required: u64) -> Seq<char> {
        match self {
            ImportTarget::Image(_) => "DMA-BUF object size "@ + decimal(size as nat)
                + " is smaller than Vulkan import requirement "@ + decimal(required as nat),
            ImportTarget::Buffer(_) => "DMA-BUF allocation size "@ + decimal(size as nat)
                + " is smaller than Vulkan source-buffer requirement "@ + decimal(required as nat),
        }
    }

    /// What comes before the result code where the import fails.
    pub open spec fn import_text(self) -> Seq<char> {
        match self {
            ImportTarget::Image(_) => "failed to import Vulkan DMA-BUF image memory: "@,
            ImportTarget::Buffer(_) => "failed to import Vulkan DMA-BUF source memory: "@,
        }
    }

    /// What comes before the result code where binding fails.
    pub open spec fn bind_text(self) -> Seq<char> {
        match self {
            ImportTarget::Image(_) => "failed to bind imported Vulkan DMA-BUF image memory: "@,
            ImportTarget::Buffer(_) => "failed to bind imported Vulkan DMA-BUF source memory: "@,
        }
    }
}

/// The image or buffer exists; the memory for it is next.
#[derive(Clone, Copy, Debug, PartialEq, Eq, Structural)]
pub struct ImportStep {
    pub target: ImportTarget,
    pub source_fd: i32,
    pub source_size: u64,
}

/// The kind of memory is known; a descriptor for Vulkan to take is next.
#[derive(Clone, Copy, Debug, PartialEq, Eq, Structural)]
pub struct DuplicateStep {
    pub target: ImportTarget,
    pub source_fd: i32,
    pub source_size: u64,
    pub allocation_size: u64,
    pub memory_type: u32,
}

/// The descriptor exists; the import of the memory is next.
#[derive(Clone, Copy, Debug, PartialEq, Eq, Structural)]
pub struct AllocateStep {
    pub target: ImportTarget,
    pub descriptor: i32,
    pub source_size: u64,
    pub allocation_size: u64,
    pub memory_type: u32,
}

/// The memory exists; binding it is next.
#[derive(Clone, Copy, Debug, PartialEq, Eq, Structural)]
pub struct BindStep {
    pub target: ImportTarget,
    pub source_size: u64,
    pub memory: RawHandle,
}

/// An image or buffer on the producer's memory.
#[derive(Clone, Copy, Debug, PartialEq, Eq, Structural)]
pub enum ImportedAllocation {
    Image(ImageAllocation),
    Buffer(BufferAllocation),
}

fn only(object: DeviceObject) -> (objects: Vec<DeviceObject>)
    ensures
        objects@ == seq![object],
{
    let mut objects: Vec<DeviceObject> = Vec::new();
    objects.push(object);
    assert(objects@ =~= seq![object]);
    objects
}

fn both(first: DeviceObject, second: DeviceObject) -> (objects: Vec<DeviceObject>)
    ensures
        objects@ == seq![first, second],
{
    let mut objects: Vec<DeviceObject> = Vec::new();
    objects.push(first);
    objects.push(second);
    assert(objects@ =~= seq![first, second]);
    objects
}

/// An image for the producer's memory was asked for.
pub fn direct_image_created(plan: DirectImagePlan, created: Result<RawHandle, i32>) -> (result:
    Result<ImportStep, BuildFailure>)
    ensures
        match created {
            Ok(image) => result == Ok::<_, BuildFailure>(
                ImportStep {
                    target: ImportTarget::Image(image),
                    source_fd: plan.source_fd,
                    source_size: plan.source_size,
                },
            ),
            Err(code) => fails(
                result,
                ImportFault::Other(
                    failure_text("failed to create Vulkan DMA-BUF import image: "@, code),
                ),
                Seq::empty(),
            ),
        },
{
    match created {
        Ok(image) => Ok(
            ImportStep {
                target: ImportTarget::Image(image),
                source_fd: plan.source_fd,
                source_size: plan.source_size,
            },
        ),
        Err(code) => failed(
            failure("failed to create Vulkan DMA-BUF import image: ", code),
            Vec::new(),
        ),
    }
}

/// The buffer that an import has to create.
#[derive(Clone, Copy, Debug, PartialEq, Eq, Structural)]
pub struct BufferPlan {
    pub source_fd: i32,
    pub source_size: u64,
    pub usage: BufferUsageFlags,
}

/// Admits the import of a buffer.
pub fn plan_imported_buffer(source_fd: i32, source_size: u64, usage: BufferUsageFlags) -> (result:
    Result<BufferPlan, VulkanImportError>)
    ensures
        imports(
            result,
            if source_fd < 0 || source_size == 0 {
                Err(
                    ImportFault::Other(
                        "Vulkan DMA-BUF buffer import requires a valid fd and size"@,
                    ),
                )
            } else {
                Ok(BufferPlan { source_fd, source_size, usage })
            },
        ),
{
    if source_fd < 0 || source_size == 0 {
        return Err(
            VulkanImportError::Other(
                "Vulkan DMA-BUF buffer import requires a valid fd and size".to_owned(),
            ),
        );
    }
    Ok(BufferPlan { source_fd, source_size, usage })
}

/// A buffer for the producer's memory was asked for.
pub fn imported_buffer_created(plan: BufferPlan, created: Result<RawHandle, i32>) -> (result: Result<
    ImportStep,
    BuildFailure,
>)
    ensures
        match created {
            Ok(buffer) => result == Ok::<_, BuildFailure>(
                ImportStep {
                    target: ImportTarget::Buffer(buffer),
                    source_fd: plan.source_fd,
                    source_size: plan.source_size,
                },
            ),
            Err(code) => fails(
                result,
                ImportFault::Other(
                    failure_text("failed to create Vulkan DMA-BUF source buffer: "@, code),
                ),
                Seq::empty(),
            ),
        },
{
    match created {
        Ok(buffer) => Ok(
            ImportStep {
                target: ImportTarget::Buffer(buffer),
                source_fd: plan.source_fd,
                source_size: plan.source_size,
            },
        ),
        Err(code) => failed(
            failure("failed to create Vulkan DMA-BUF source buffer: ", code),
            Vec::new(),
        ),
    }
}

/// What a device says about memory for an image or buffer.
#[derive(Clone, Copy, Debug, PartialEq, Eq)]
pub struct MemoryReport {
    /// How many bytes are needed.
    pub size: u64,
    /// The kinds of memory that fit.
    pub type_bits: u32,
    /// The kinds of memory that the descriptor can be imported as, or the result code of the query.
    pub descriptor_type_bits: Result<u32, i32>,
    /// How many kinds of memory the device has.
    pub type_count: u32,
}

/// The kind of memory to import, or why there is none.
pub open spec fn imported_type_verdict(report: MemoryReport) -> Result<u32, Seq<char>> {
    match report.descriptor_type_bits {
        Err(code) => Err(
            failure_text("failed to query Vulkan DMA-BUF memory properties: "@, code),
        ),
        Ok(bits) => memory_type_verdict(report.type_bits & bits, report.type_count),
    }
}

/// The device said what memory is needed. An image takes as much as it needs, a buffer everything
/// that the producer allocated.
pub fn imported_memory_reported(step: ImportStep, report: MemoryReport) -> (result: Result<
    DuplicateStep,
    BuildFailure,
>)
    requires
        report.type_count <= 32,
    ensures
        if step.source_size < report.size {
            fails(
                result,
                ImportFault::AllocationSize(
                    step.target.too_small_text(step.source_size, report.size),
                ),
                seq![step.target.object()],
            )
        } else {
            match imported_type_verdict(report) {
                Err(text) => fails(result, ImportFault::Other(text), seq![step.target.object()]),
                Ok(memory_type) => result == Ok::<_, BuildFailure>(
                    DuplicateStep {
                        target: step.target,
                        source_fd: step.source_fd,
                        source_size: step.source_size,
                        allocation_size: match step.target {
                            ImportTarget::Image(_) => report.size,
                            ImportTarget::Buffer(_) => step.source_size,
                        },
                        memory_type,
                    },
                ),
            }
        },
{
    if step.source_size < report.size {
        let message = match step.target {
            ImportTarget::Image(_) => Message::new("DMA-BUF object size ").number(
                step.source_size,
            ).text(" is smaller than Vulkan import requirement ").number(report.size).done(),
            ImportTarget::Buffer(_) => Message::new("DMA-BUF allocation size ").number(
                step.source_size,
            ).text(" is smaller than Vulkan source-buffer requirement ").number(report.size).done(),
        };
        return Err(
            BuildFailure {
                error: VulkanImportError::AllocationSize(message),
                destroy: only(step.target.as_object()),
            },
        );
    }
    let descriptor_bits: u32 = match report.descriptor_type_bits {
        Ok(bits) => bits,
        Err(code) => {
            return failed(
                failure("failed to query Vulkan DMA-BUF memory properties: ", code),
                only(step.target.as_object()),
            );
        },
    };
    let memory_type: u32 = match imported_memory_type(
        report.type_bits,
        descriptor_bits,
        report.type_count,
    ) {
        Ok(memory_type) => memory_type,
        Err(message) => return failed(message, only(step.target.as_object())),
    };
    Ok(
        DuplicateStep {
            target: step.target,
            source_fd: step.source_fd,
            source_size: step.source_size,
            allocation_size: match step.target {
                ImportTarget::Image(_) => report.size,
                ImportTarget::Buffer(_) => step.source_size,
            },
            memory_type,
        },
    )
}

/// A duplicate of the producer's descriptor was asked for; `Err` holds the cause of a failure.
pub fn descriptor_duplicated(step: DuplicateStep, duplicated: Result<i32, String>) -> (result:
    Result<AllocateStep, BuildFailure>)
    ensures
        match duplicated {
            Ok(descriptor) => result == Ok::<_, BuildFailure>(
                AllocateStep {
                    target: step.target,
                    descriptor,
                    source_size: step.source_size,
                    allocation_size: step.allocation_size,
                    memory_type: step.memory_type,
                },
            ),
            Err(cause) => fails(
                result,
                ImportFault::Other("failed to duplicate Vulkan DMA-BUF import fd: "@ + cause@),
                seq![step.target.object()],
            ),
        },
{
    match duplicated {
        Ok(descriptor) => Ok(
            AllocateStep {
                target: step.target,
                descriptor,
                source_size: step.source_size,
                allocation_size: step.allocation_size,
                memory_type: step.memory_type,
            },
        ),
        Err(cause) => failed(
            Message::new("failed to duplicate Vulkan DMA-BUF import fd: ").text(
                cause.as_str(),
            ).done(),
            only(step.target.as_object()),
        ),
    }
}

/// The import of the memory was asked for. Vulkan takes the descriptor if and only if that
/// succeeds.
pub fn imported_memory_allocated(step: AllocateStep, allocated: Result<RawHandle, i32>) -> (result:
    Result<BindStep, BuildFailure>)
    ensures
        match allocated {
            Ok(memory) => result == Ok::<_, BuildFailure>(
                BindStep { target: step.target, source_size: step.source_size, memory },
            ),
            Err(code) => fails(
                result,
                ImportFault::Other(failure_text(step.target.import_text(), code)),
                seq![DeviceObject::Descriptor(step.descriptor), step.target.object()],
            ),
        },
{
    match allocated {
        Ok(memory) => Ok(BindStep { target: step.target, source_size: step.source_size, memory }),
        Err(code) => {
            let message = match step.target {
                ImportTarget::Image(_) => failure(
                    "failed to import Vulkan DMA-BUF image memory: ",
                    code,
                ),
                ImportTarget::Buffer(_) => failure(
                    "failed to import Vulkan DMA-BUF source memory: ",
                    code,
                ),
            };
            failed(
                message,
                both(DeviceObject::Descriptor(step.descriptor), step.target.as_object()),
            )
        },
    }
}

/// Binding was asked for.
pub fn imported_memory_bound(step: BindStep, bound: Result<(), i32>) -> (result: Result<
    ImportedAllocation,
    BuildFailure,
>)
    ensures
        match bound {
            Ok(()) => result == Ok::<_, BuildFailure>(
                match step.target {
                    ImportTarget::Image(image) => ImportedAllocation::Image(
                        ImageAllocation { image, memory: step.memory },
                    ),
                    ImportTarget::Buffer(buffer) => ImportedAllocation::Buffer(
                        BufferAllocation { buffer, memory: step.memory, size: step.source_size },
                    ),
                },
            ),
            Err(code) => fails(
                result,
                ImportFault::Other(failure_text(step.target.bind_text(), code)),
                seq![DeviceObject::Memory(step.memory), step.target.object()],
            ),
        },
{
    match bound {
        Ok(()) => Ok(
            match step.target {
                ImportTarget::Image(image) => ImportedAllocation::Image(
                    ImageAllocation { image, memory: step.memory },
                ),
                ImportTarget::Buffer(buffer) => ImportedAllocation::Buffer(
                    BufferAllocation { buffer, memory: step.memory, size: step.source_size },
                ),
            },
        ),
        Err(code) => {
            let message = match step.target {
                ImportTarget::Image(_) => failure(
                    "failed to bind imported Vulkan DMA-BUF image memory: ",
                    code,
                ),
                ImportTarget::Buffer(_) => failure(
                    "failed to bind imported Vulkan DMA-BUF source memory: ",
                    code,
                ),
            };
            failed(message, both(DeviceObject::Memory(step.memory), step.target.as_object()))
        },
    }
}

/// How a shader sees a buffer: as texels from its first byte on.
#[derive(Clone, Copy, Debug, PartialEq, Eq, Structural)]
pub struct BufferViewPlan {
    pub format: PixelFormat,
    pub range: u64,
}

/// What the source of a frame is made of.
#[derive(Clone, Copy, Debug, PartialEq, Eq)]
pub enum SourcePlan {
    Image(DirectImagePlan),
    Buffer { usage: BufferUsageFlags, view: Option<BufferViewPlan> },
}

/// What the source of a biplanar frame is made of.
pub fn plan_nv12_source(
    dimensions: (u32, u32),
    source_fd: i32,
    layout: Nv12SharedObjectLayout,
    plan: Nv12ImportPlan,
) -> (source: SourcePlan)
    ensures
        match plan.strategy {
            Nv12ImportStrategy::DirectSampledImage => source == SourcePlan::Image(
                nv12_image_plan(dimensions, source_fd, layout),
            ),
            Nv12ImportStrategy::LinearBufferToOptimalNv12
            | Nv12ImportStrategy::LinearBufferToOptimalYuvPlanes => source == (SourcePlan::Buffer {
                usage: TRANSFER_NV12_SOURCE_USAGE,
                view: None,
            }),
            Nv12ImportStrategy::LinearBufferToYuvPlanes
            | Nv12ImportStrategy::LinearBufferToRgba => source == (SourcePlan::Buffer {
                usage: STAGED_NV12_SOURCE_USAGE,
                view: Some(
                    BufferViewPlan {
                        format: STAGED_NV12_SOURCE_TEXEL_FORMAT,
                        range: match plan.source_view_range {
                            Some(range) => range,
                            None => layout.object_size,
                        },
                    },
                ),
            }),
        },
{
    match plan.strategy {
        Nv12ImportStrategy::DirectSampledImage => SourcePlan::Image(
            plan_nv12_image(dimensions, source_fd, layout),
        ),
        Nv12ImportStrategy::LinearBufferToOptimalNv12
        | Nv12ImportStrategy::LinearBufferToOptimalYuvPlanes => SourcePlan::Buffer {
            usage: TRANSFER_NV12_SOURCE_USAGE,
            view: None,
        },
        Nv12ImportStrategy::LinearBufferToYuvPlanes
        | Nv12ImportStrategy::LinearBufferToRgba => SourcePlan::Buffer {
            usage: STAGED_NV12_SOURCE_USAGE,
            view: Some(
                BufferViewPlan {
                    format: STAGED_NV12_SOURCE_TEXEL_FORMAT,
                    range: match plan.source_view_range {
                        Some(range) => range,
                        None => layout.object_size,
                    },
                },
            ),
        },
    }
}

/// What the source of a packed frame is made of.
pub fn plan_packed_source(request: PackedImageImport, strategy: PackedImageImportStrategy) -> (source:
    SourcePlan)
    ensures
        source == (match strategy {
            PackedImageImportStrategy::DirectSampledImage => SourcePlan::Image(
                packed_image_plan(request),
            ),
            PackedImageImportStrategy::LinearBufferToOptimalBgra => SourcePlan::Buffer {
                usage: STAGED_PACKED_SOURCE_USAGE,
                view: Some(
                    BufferViewPlan {
                        format: STAGED_PACKED_SOURCE_TEXEL_FORMAT,
                        range: request.source_size,
                    },
                ),
            },
        }),
{
    match strategy {
        PackedImageImportStrategy::DirectSampledImage => SourcePlan::Image(
            plan_packed_image(request),
        ),
        PackedImageImportStrategy::LinearBufferToOptimalBgra => SourcePlan::Buffer {
            usage: STAGED_PACKED_SOURCE_USAGE,
            view: Some(
                BufferViewPlan {
                    format: STAGED_PACKED_SOURCE_TEXEL_FORMAT,
                    range: request.source_size,
                },
            ),
        },
    }
}

/// A view of the source buffer of a biplanar frame was asked for.
pub fn nv12_source_view_created(source: BufferAllocation, created: Result<RawHandle, i32>) -> (
result: Result<Nv12SourceAllocation, BuildFailure>)
    ensures
        match created {
            Ok(view) => result == Ok::<_, BuildFailure>(
                Nv12SourceAllocation::Compute { view, source },
            ) && result->Ok_0.objects() == seq![DeviceObject::BufferView(view)] + source.objects(),
            Err(code) => fails(
                result,
                ImportFault::Other(
                    failure_text("failed to create staged NV12 source view: "@, code),
                ),
                source.objects(),
            ),
        },
{
    match created {
        Ok(view) => Ok(Nv12SourceAllocation::Compute { view, source }),
        Err(code) => failed(
            failure("failed to create staged NV12 source view: ", code),
            both(DeviceObject::Buffer(source.buffer), DeviceObject::Memory(source.memory)),
        ),
    }
}

/// A view of the source buffer of a packed frame was asked for.
pub fn packed_source_view_created(source: BufferAllocation, created: Result<RawHandle, i32>) -> (
result: Result<PackedSourceAllocation, BuildFailure>)
    ensures
        match created {
            Ok(view) => result == Ok::<_, BuildFailure>(
                PackedSourceAllocation::Staged { view, source },
            ) && result->Ok_0.objects() == seq![DeviceObject::BufferView(view)] + source.objects(),
            Err(code) => fails(
                result,
                ImportFault::Other(
                    failure_text("failed to create staged packed source view: "@, code),
                ),
                source.objects(),
            ),
        },
{
    match created {
        Ok(view) => Ok(PackedSourceAllocation::Staged { view, source }),
        Err(code) => failed(
            failure("failed to create staged packed source view: ", code),
            both(DeviceObject::Buffer(source.buffer), DeviceObject::Memory(source.memory)),
        ),
    }
}

/// An image of the importer's own.
#[derive(Clone, Copy, Debug, PartialEq, Eq)]
pub struct LocalImagePlan {
    pub dimensions: (u32, u32),
    pub format: PixelFormat,
    pub usage: ImageUsageFlags,
    pub flags: ImageCreateFlags,
    /// The format of views other than the image's own, where there are any.
    pub view_format: Option<PixelFormat>,
}

/// The image exists; the memory for it is next.
#[derive(Clone, Copy, Debug, PartialEq, Eq, Structural)]
pub struct LocalMemoryStep {
    pub image: RawHandle,
}

/// The kind of memory is known; its allocation is next.
#[derive(Clone, Copy, Debug, PartialEq, Eq, Structural)]
pub struct LocalAllocateStep {
    pub image: RawHandle,
    pub allocation_size: u64,
    pub memory_type: u32,
}

/// An image of the importer's own was asked for.
pub fn local_image_created(created: Result<RawHandle, i32>) -> (result: Result<
    LocalMemoryStep,
    BuildFailure,
>)
    ensures
        match created {
            Ok(image) => result == Ok::<_, BuildFailure>(LocalMemoryStep { image }),
            Err(code) => fails(
                result,
                ImportFault::Other(failure_text("failed to create staged output image: "@, code)),
                Seq::empty(),
            ),
        },
{
    match created {
        Ok(image) => Ok(LocalMemoryStep { image }),
        Err(code) => failed(failure("failed to create staged output image: ", code), Vec::new()),
    }
}

/// The device said what memory is needed: `size` bytes of one of the kinds in `type_bits`.
pub fn local_memory_reported(
    step: LocalMemoryStep,
    size: u64,
    type_bits: u32,
    type_count: u32,
) -> (result: Result<LocalAllocateStep, BuildFailure>)
    requires
        type_count <= 32,
    ensures
        match memory_type_verdict(type_bits, type_count) {
            Ok(memory_type) => result == Ok::<_, BuildFailure>(
                LocalAllocateStep { image: step.image, allocation_size: size, memory_type },
            ),
            Err(text) => fails(
                result,
                ImportFault::Other(text),
                seq![DeviceObject::Image(step.image)],
            ),
        },
{
    match select_memory_type(type_bits, type_count) {
        Ok(memory_type) => Ok(
            LocalAllocateStep { image: step.image, allocation_size: size, memory_type },
        ),
        Err(message) => failed(message, only(DeviceObject::Image(step.image))),
    }
}

/// The memory was asked for.
pub fn local_memory_allocated(step: LocalAllocateStep, allocated: Result<RawHandle, i32>) -> (result:
    Result<ImageAllocation, BuildFailure>)
    ensures
        match allocated {
            Ok(memory) => result == Ok::<_, BuildFailure>(
                ImageAllocation { image: step.image, memory },
            ),
            Err(code) => fails(
                result,
                ImportFault::Other(
                    failure_text("failed to allocate staged output memory: "@, code),
                ),
                seq![DeviceObject::Image(step.image)],
            ),
        },
{
    match allocated {
        Ok(memory) => Ok(ImageAllocation { image: step.image, memory }),
        Err(code) => failed(
            failure("failed to allocate staged output memory: ", code),
            only(DeviceObject::Image(step.image)),
        ),
    }
}

/// Binding was asked for.
pub fn local_memory_bound(allocation: ImageAllocation, bound: Result<(), i32>) -> (result: Result<
    ImageAllocation,
    BuildFailure,
>)
    ensures
        match bound {
            Ok(()) => result == Ok::<_, BuildFailure>(allocation),
            Err(code) => fails(
                result,
                ImportFault::Other(failure_text("failed to bind staged output memory: "@, code)),
                seq![
                    DeviceObject::Memory(allocation.memory),
                    DeviceObject::Image(allocation.image),
                ],
            ),
        },
{
    match bound {
        Ok(()) => Ok(allocation),
        Err(code) => failed(
            failure("failed to bind staged output memory: ", code),
            both(
                DeviceObject::Memory(allocation.memory),
                DeviceObject::Image(allocation.image),
            ),
        ),
    }
}

} // verus!
