//! What holds of the objects that are made on the device, whichever call fails.

use vstd::prelude::*;

use crate::vulkan::construction::BuildFailure;
use crate::vulkan::error::VulkanImportError;
use crate::vulkan::flags::RawHandle;
use crate::vulkan::image::{
    plan_nv12_image, plan_packed_image, DirectImagePlan, StagedPushConstants,
};
use crate::vulkan::import::Nv12ImportPlan;
use crate::vulkan::inventory::{imported_memory_type, select_memory_type};
use crate::vulkan::memory::{
    descriptor_duplicated, direct_image_created, imported_buffer_created, imported_memory_allocated,
    imported_memory_bound, imported_memory_reported, local_image_created, local_memory_allocated,
    local_memory_bound, local_memory_reported, nv12_source_view_created, packed_source_view_created,
    plan_imported_buffer, plan_nv12_source, plan_packed_source, AllocateStep, BindStep, BufferPlan,
    DuplicateStep, ImportStep, ImportTarget, ImportedAllocation, LocalAllocateStep, LocalMemoryStep,
    MemoryReport, SourcePlan,
};
use crate::vulkan::output::OutputBuild;
use crate::vulkan::pipeline::{
    descriptor_layout_created, packed_shader_words, pipeline_created, pipeline_layout_created,
    shader_created, shader_words, DescriptorBinding, PipelineLayoutStep, PipelineStep, ShaderStep,
};
use crate::vulkan::resources::{
    BufferAllocation, ComputeKind, ComputePipeline, DeviceObject, ImageAllocation,
    Nv12SourceAllocation, PackedOutput, PackedSourceAllocation, StagedOutput, StagedOutputResources,
    StagedSampledImages,
};
use crate::vulkan::types::{
    Nv12ComputeOutput, Nv12ImportStrategy, Nv12SharedObjectLayout, PackedImageImport,
    PackedImageImportStrategy,
};

verus! {

/// The attempt failed, and leaves exactly these objects to destroy.
pub open spec fn leaves<T>(result: Result<T, BuildFailure>, objects: Seq<DeviceObject>) -> bool {
    result matches Err(failure) && failure.destroy@ == objects
}

/// An object that could not be created leaves nothing behind; one that was created goes on with the
/// descriptor and the size of its source. A buffer is planned for a source that has both.
pub proof fn imports_begin_with_the_source(
    plan: DirectImagePlan,
    buffer: BufferPlan,
    created: Result<RawHandle, i32>,
    image: Result<ImportStep, BuildFailure>,
    linear: Result<ImportStep, BuildFailure>,
    source_fd: i32,
    source_size: u64,
    usage: u32,
    planned: Result<BufferPlan, VulkanImportError>,
)
    requires
        call_ensures(direct_image_created, (plan, created), image),
        call_ensures(imported_buffer_created, (buffer, created), linear),
        call_ensures(plan_imported_buffer, (source_fd, source_size, usage), planned),
    ensures
        created is Err ==> leaves(image, seq![]) && leaves(linear, seq![]),
        created matches Ok(handle) ==> {
            &&& image matches Ok(step) && step.target == ImportTarget::Image(handle)
                && step.source_fd == plan.source_fd && step.source_size == plan.source_size
        },
        created matches Ok(handle) ==> {
            &&& linear matches Ok(step) && step.target == ImportTarget::Buffer(handle)
                && step.source_fd == buffer.source_fd && step.source_size == buffer.source_size
        },
        planned is Ok <==> source_fd >= 0 && source_size > 0,
        planned matches Ok(found) ==> found.source_fd == source_fd && found.source_size
            == source_size && found.usage == usage,
{
}

/// Memory is imported only where the source holds as much as is needed and there is a type of memory
/// that both sides allow, which is then used. An image takes as much as it needs, a buffer all of
/// the source. A source that is too small is a fault of the allocation's size; whatever fails, the
/// object that was created is all that is left.
pub proof fn imported_memory_is_large_enough(
    step: ImportStep,
    report: MemoryReport,
    bits: u32,
    memory_type: Result<u32, String>,
    result: Result<DuplicateStep, BuildFailure>,
)
    requires
        report.type_count <= 32,
        report.descriptor_type_bits is Ok ==> report.descriptor_type_bits == Ok::<u32, i32>(bits),
        call_ensures(imported_memory_type, (report.type_bits, bits, report.type_count), memory_type),
        call_ensures(imported_memory_reported, (step, report), result),
    ensures
        result is Ok <==> step.source_size >= report.size && report.descriptor_type_bits is Ok
            && memory_type is Ok,
        result matches Ok(next) ==> {
            &&& next.target == step.target && next.source_fd == step.source_fd && next.source_size
                == step.source_size
            &&& memory_type == Ok::<_, String>(next.memory_type)
            &&& step.target is Image ==> next.allocation_size == report.size
            &&& step.target is Buffer ==> next.allocation_size == step.source_size
        },
        result matches Err(failure) ==> {
            &&& failure.error is AllocationSize <==> step.source_size < report.size
            &&& failure.destroy@ == seq![
                match step.target {
                    ImportTarget::Image(handle) => DeviceObject::Image(handle),
                    ImportTarget::Buffer(handle) => DeviceObject::Buffer(handle),
                },
            ]
        },
{
}

/// The descriptor belongs to the device only once memory was made of it: until then it is left to
/// close, and from then on the memory is left to free, each with the object that was created.
pub proof fn imported_memory_is_given_back(
    duplicate: DuplicateStep,
    duplicated: Result<i32, String>,
    allocate: AllocateStep,
    allocated: Result<RawHandle, i32>,
    bind: BindStep,
    bound: Result<(), i32>,
    duplicated_next: Result<AllocateStep, BuildFailure>,
    allocated_next: Result<BindStep, BuildFailure>,
    bound_next: Result<ImportedAllocation, BuildFailure>,
)
    requires
        call_ensures(descriptor_duplicated, (duplicate, duplicated), duplicated_next),
        call_ensures(imported_memory_allocated, (allocate, allocated), allocated_next),
        call_ensures(imported_memory_bound, (bind, bound), bound_next),
    ensures
        match duplicated {
            Ok(fd) => duplicated_next matches Ok(next) && next.descriptor == fd && next.target
                == duplicate.target && next.source_size == duplicate.source_size
                && next.allocation_size == duplicate.allocation_size && next.memory_type
                == duplicate.memory_type,
            Err(_) => leaves(duplicated_next, seq![object_of(duplicate.target)]),
        },
        match allocated {
            Ok(memory) => allocated_next matches Ok(next) && next.memory == memory && next.target
                == allocate.target && next.source_size == allocate.source_size,
            Err(_) => leaves(
                allocated_next,
                seq![DeviceObject::Descriptor(allocate.descriptor), object_of(allocate.target)],
            ),
        },
        match bound {
            Ok(()) => match (bind.target, bound_next) {
                (ImportTarget::Image(handle), Ok(ImportedAllocation::Image(image))) => image.image
                    == handle && image.memory == bind.memory,
                (ImportTarget::Buffer(handle), Ok(ImportedAllocation::Buffer(buffer))) =>
                    buffer.buffer == handle && buffer.memory == bind.memory && buffer.size
                    == bind.source_size,
                _ => false,
            },
            Err(_) => leaves(
                bound_next,
                seq![DeviceObject::Memory(bind.memory), object_of(bind.target)],
            ),
        },
{
}

/// The object that memory is imported for.
pub open spec fn object_of(target: ImportTarget) -> DeviceObject {
    match target {
        ImportTarget::Image(handle) => DeviceObject::Image(handle),
        ImportTarget::Buffer(handle) => DeviceObject::Buffer(handle),
    }
}

/// A biplanar source is an image where it is sampled, a buffer to copy from where it is copied, and
/// a buffer of texels with a view of what the shader sees where a shader reads it.
pub proof fn nv12_sources_are_made_for_their_strategy(
    dimensions: (u32, u32),
    source_fd: i32,
    layout: Nv12SharedObjectLayout,
    plan: Nv12ImportPlan,
    image: DirectImagePlan,
    source: SourcePlan,
)
    requires
        call_ensures(plan_nv12_source, (dimensions, source_fd, layout, plan), source),
        call_ensures(plan_nv12_image, (dimensions, source_fd, layout), image),
    ensures
        match plan.strategy {
            Nv12ImportStrategy::DirectSampledImage => source == SourcePlan::Image(image),
            Nv12ImportStrategy::LinearBufferToOptimalNv12
            | Nv12ImportStrategy::LinearBufferToOptimalYuvPlanes =>
                source matches SourcePlan::Buffer { usage, view } && usage == 0x1 && view is None,
            Nv12ImportStrategy::LinearBufferToYuvPlanes
            | Nv12ImportStrategy::LinearBufferToRgba => {
                &&& source matches SourcePlan::Buffer { usage, view: Some(view) }
                &&& usage == 0x4 && view.format == 98
                &&& plan.source_view_range matches Some(range) ==> view.range == range
                &&& plan.source_view_range is None ==> view.range == layout.object_size
            },
        },
{
}

/// A packed source is an image where it is sampled, and a buffer of texels with a view of the whole
/// allocation where a shader reads it.
pub proof fn packed_sources_are_made_for_their_strategy(
    request: PackedImageImport,
    strategy: PackedImageImportStrategy,
    image: DirectImagePlan,
    source: SourcePlan,
)
    requires
        call_ensures(plan_packed_source, (request, strategy), source),
        call_ensures(plan_packed_image, (request,), image),
    ensures
        match strategy {
            PackedImageImportStrategy::DirectSampledImage => source == SourcePlan::Image(image),
            PackedImageImportStrategy::LinearBufferToOptimalBgra =>
                source matches SourcePlan::Buffer { usage, view: Some(view) } && usage == 0x4
                && view.format == 98 && view.range == request.source_size,
        },
{
}

/// A source whose view could not be created is destroyed, buffer before memory; one whose view was
/// created is that buffer with that view.
pub proof fn source_views_come_with_their_buffer(
    source: BufferAllocation,
    created: Result<RawHandle, i32>,
    planar: Result<Nv12SourceAllocation, BuildFailure>,
    packed: Result<PackedSourceAllocation, BuildFailure>,
)
    requires
        call_ensures(nv12_source_view_created, (source, created), planar),
        call_ensures(packed_source_view_created, (source, created), packed),
    ensures
        created matches Ok(handle) ==> planar == Ok::<_, BuildFailure>(
            Nv12SourceAllocation::Compute { view: handle, source },
        ) && packed == Ok::<_, BuildFailure>(
            PackedSourceAllocation::Staged { view: handle, source },
        ),
        created is Err ==> leaves(
            planar,
            seq![DeviceObject::Buffer(source.buffer), DeviceObject::Memory(source.memory)],
        ) && leaves(
            packed,
            seq![DeviceObject::Buffer(source.buffer), DeviceObject::Memory(source.memory)],
        ),
{
}

/// An image of the importer's own gets as much memory as it needs, of a type that it allows; what
/// was made before a call that fails is left to destroy, memory before the image that it backs.
pub proof fn local_images_are_given_back(
    created: Result<RawHandle, i32>,
    created_next: Result<LocalMemoryStep, BuildFailure>,
    step: LocalMemoryStep,
    size: u64,
    type_bits: u32,
    type_count: u32,
    memory_type: Result<u32, String>,
    reported_next: Result<LocalAllocateStep, BuildFailure>,
    allocate: LocalAllocateStep,
    allocated: Result<RawHandle, i32>,
    allocated_next: Result<ImageAllocation, BuildFailure>,
    allocation: ImageAllocation,
    bound: Result<(), i32>,
    bound_next: Result<ImageAllocation, BuildFailure>,
)
    requires
        type_count <= 32,
        call_ensures(local_image_created, (created,), created_next),
        call_ensures(select_memory_type, (type_bits, type_count), memory_type),
        call_ensures(local_memory_reported, (step, size, type_bits, type_count), reported_next),
        call_ensures(local_memory_allocated, (allocate, allocated), allocated_next),
        call_ensures(local_memory_bound, (allocation, bound), bound_next),
    ensures
        match created {
            Ok(handle) => created_next matches Ok(next) && next.image == handle,
            Err(_) => leaves(created_next, seq![]),
        },
        match memory_type {
            Ok(index) => reported_next matches Ok(next) && next.image == step.image
                && next.allocation_size == size && next.memory_type == index,
            Err(_) => leaves(reported_next, seq![DeviceObject::Image(step.image)]),
        },
        match allocated {
            Ok(memory) => allocated_next matches Ok(next) && next.image == allocate.image
                && next.memory == memory,
            Err(_) => leaves(allocated_next, seq![DeviceObject::Image(allocate.image)]),
        },
        match bound {
            Ok(()) => bound_next == Ok::<_, BuildFailure>(allocation),
            Err(_) => leaves(
                bound_next,
                seq![
                    DeviceObject::Memory(allocation.memory),
                    DeviceObject::Image(allocation.image),
                ],
            ),
        },
{
}

/// Whatever uses an object is destroyed before it: a view before its buffer or image, and those
/// before their memory.
pub proof fn sources_are_destroyed_from_the_outside(
    image: ImageAllocation,
    image_objects: Vec<DeviceObject>,
    planar: Nv12SourceAllocation,
    planar_objects: Vec<DeviceObject>,
    packed: PackedSourceAllocation,
    packed_objects: Vec<DeviceObject>,
)
    requires
        call_ensures(ImageAllocation::teardown, (image,), image_objects),
        call_ensures(Nv12SourceAllocation::teardown, (planar,), planar_objects),
        call_ensures(PackedSourceAllocation::teardown, (packed,), packed_objects),
    ensures
        image_objects@ == seq![DeviceObject::Image(image.image), DeviceObject::Memory(image.memory)],
        match planar {
            Nv12SourceAllocation::Direct(own) => planar_objects@ == seq![
                DeviceObject::Image(own.image),
                DeviceObject::Memory(own.memory),
            ],
            Nv12SourceAllocation::Transfer { source } => planar_objects@ == seq![
                DeviceObject::Buffer(source.buffer),
                DeviceObject::Memory(source.memory),
            ],
            Nv12SourceAllocation::Compute { view, source } => planar_objects@ =~= seq![
                DeviceObject::BufferView(view),
                DeviceObject::Buffer(source.buffer),
                DeviceObject::Memory(source.memory),
            ],
        },
        match packed {
            PackedSourceAllocation::Direct(own) => packed_objects@ == seq![
                DeviceObject::Image(own.image),
                DeviceObject::Memory(own.memory),
            ],
            PackedSourceAllocation::Staged { view, source } => packed_objects@ =~= seq![
                DeviceObject::BufferView(view),
                DeviceObject::Buffer(source.buffer),
                DeviceObject::Memory(source.memory),
            ],
        },
{
}

/// An output is destroyed descriptors first, then image by image, a view before its image and an
/// image before its memory, and nothing is left out.
pub proof fn outputs_are_destroyed_from_the_outside(
    output: StagedOutput,
    objects: Vec<DeviceObject>,
    packed: PackedOutput,
    packed_objects: Vec<DeviceObject>,
)
    requires
        call_ensures(StagedOutput::teardown, (output,), objects),
        call_ensures(PackedOutput::teardown, (packed,), packed_objects),
    ensures
        ({
            let rest = match output.resources {
                StagedOutputResources::Rgba { view, sampled } => seq![
                    DeviceObject::ImageView(view),
                    DeviceObject::Image(sampled.image),
                    DeviceObject::Memory(sampled.memory),
                ],
                StagedOutputResources::Nv12 { sampled } => seq![
                    DeviceObject::Image(sampled.image),
                    DeviceObject::Memory(sampled.memory),
                ],
                StagedOutputResources::TransferYuvPlanes { luma, chroma } => seq![
                    DeviceObject::Image(luma.image),
                    DeviceObject::Memory(luma.memory),
                    DeviceObject::Image(chroma.image),
                    DeviceObject::Memory(chroma.memory),
                ],
                StagedOutputResources::YuvPlanes { luma_view, luma, chroma_view, chroma } => seq![
                    DeviceObject::ImageView(luma_view),
                    DeviceObject::Image(luma.image),
                    DeviceObject::Memory(luma.memory),
                    DeviceObject::ImageView(chroma_view),
                    DeviceObject::Image(chroma.image),
                    DeviceObject::Memory(chroma.memory),
                ],
            };
            match output.descriptor_pool {
                Some(pool) => objects@ =~= seq![DeviceObject::DescriptorPool(pool)] + rest,
                None => objects@ =~= rest,
            }
        }),
        packed_objects@ =~= seq![
            DeviceObject::DescriptorPool(packed.descriptor_pool),
            DeviceObject::ImageView(packed.storage_view),
            DeviceObject::Image(packed.sampled.image),
            DeviceObject::Memory(packed.sampled.memory),
        ],
{
}

/// The images that are sampled are those of the output, luma and chroma each in its own place.
pub proof fn sampled_images_are_the_outputs(
    resources: StagedOutputResources,
    images: StagedSampledImages,
)
    requires
        call_ensures(StagedOutputResources::sampled_images, (resources,), images),
    ensures
        match resources {
            StagedOutputResources::Rgba { sampled, .. } => images == (StagedSampledImages::Rgba {
                image: sampled.image,
            }),
            StagedOutputResources::Nv12 { sampled } => images == (StagedSampledImages::Nv12 {
                image: sampled.image,
            }),
            StagedOutputResources::TransferYuvPlanes { luma, chroma } => images == (
            StagedSampledImages::YuvPlanes { luma: luma.image, chroma: chroma.image }),
            StagedOutputResources::YuvPlanes { luma, chroma, .. } => images == (
            StagedSampledImages::YuvPlanes { luma: luma.image, chroma: chroma.image }),
        },
{
}

/// A shader reads one texel buffer at binding zero and writes one image, or two planes, at the
/// bindings behind it; its constants have as many bytes as their words.
pub proof fn shaders_have_one_source(
    kind: ComputeKind,
    bindings: Vec<DescriptorBinding>,
    bytes: u32,
    constants: StagedPushConstants,
    words: Vec<u32>,
)
    requires
        call_ensures(ComputeKind::bindings, (kind,), bindings),
        call_ensures(ComputeKind::push_constant_bytes, (kind,), bytes),
        call_ensures(StagedPushConstants::words, (constants,), words),
        constants is Packed <==> kind is Packed,
    ensures
        bindings@.len() == if kind == ComputeKind::Nv12(Nv12ComputeOutput::YuvPlanes) {
            3int
        } else {
            2
        },
        forall|index: int|
            0 <= index < bindings@.len() ==> (#[trigger] bindings@[index]).binding == index
                && bindings@[index].descriptor_count == 1 && bindings@[index].descriptor_type == if
                index == 0 {
                4i32
            } else {
                3
            },
        bytes == 4 * words@.len(),
        kind is Packed ==> bytes == 20,
        !(kind is Packed) ==> bytes == 36,
{
    assert forall|index: int| 0 <= index < bindings@.len() implies (
    #[trigger] bindings@[index]).binding == index && bindings@[index].descriptor_count == 1
        && bindings@[index].descriptor_type == if index == 0 {
        4i32
    } else {
        3
    } by {
        assert(bindings[index].binding == index);
    }
}

/// The words of a shader are its bytes, four by four, the lowest first; code that is not made of
/// words is refused.
pub proof fn shader_words_are_little_endian(
    output: Nv12ComputeOutput,
    code: &[u8],
    result: Result<Vec<u32>, String>,
    packed: Result<Vec<u32>, String>,
    index: int,
)
    requires
        call_ensures(shader_words, (output, code), result),
        call_ensures(packed_shader_words, (code,), packed),
    ensures
        result is Ok <==> code@.len() % 4 == 0,
        packed is Ok <==> code@.len() % 4 == 0,
        result is Ok ==> packed->Ok_0@ == result->Ok_0@,
        result matches Ok(words) ==> 4 * words@.len() == code@.len() && (0 <= index < words@.len()
            ==> words@[index] == code@[4 * index] + 256 * code@[4 * index + 1] + 65536 * code@[4
            * index + 2] + 16777216 * code@[4 * index + 3]),
{
}

/// A pipeline is made layout by layout; what was made before a call that fails is left to destroy,
/// the last first.
pub proof fn pipelines_are_given_back(
    kind: ComputeKind,
    set_layout: Result<RawHandle, i32>,
    first: Result<PipelineLayoutStep, BuildFailure>,
    second_step: PipelineLayoutStep,
    pipeline_layout: Result<RawHandle, i32>,
    code: &[u8],
    second: Result<ShaderStep, BuildFailure>,
    third_step: ShaderStep,
    shader: Result<RawHandle, i32>,
    third: Result<PipelineStep, BuildFailure>,
)
    requires
        call_ensures(descriptor_layout_created, (kind, set_layout), first),
        call_ensures(pipeline_layout_created, (second_step, pipeline_layout, code), second),
        call_ensures(shader_created, (third_step, shader), third),
    ensures
        match set_layout {
            Ok(handle) => first matches Ok(next) && next.kind == kind && next.descriptor_set_layout
                == handle,
            Err(_) => leaves(first, seq![]),
        },
        second is Ok <==> pipeline_layout is Ok && code@.len() % 4 == 0,
        second matches Ok(next) ==> next.kind == second_step.kind && next.descriptor_set_layout
            == second_step.descriptor_set_layout && pipeline_layout == Ok::<_, i32>(
            next.pipeline_layout,
        ) && 4 * next.words@.len() == code@.len(),
        pipeline_layout is Err ==> leaves(
            second,
            seq![DeviceObject::DescriptorSetLayout(second_step.descriptor_set_layout)],
        ),
        pipeline_layout matches Ok(handle) ==> second is Err ==> leaves(
            second,
            seq![
                DeviceObject::PipelineLayout(handle),
                DeviceObject::DescriptorSetLayout(second_step.descriptor_set_layout),
            ],
        ),
        match shader {
            Ok(handle) => third matches Ok(next) && next.kind == third_step.kind && next.shader
                == handle && next.pipeline_layout == third_step.pipeline_layout
                && next.descriptor_set_layout == third_step.descriptor_set_layout,
            Err(_) => leaves(
                third,
                seq![
                    DeviceObject::PipelineLayout(third_step.pipeline_layout),
                    DeviceObject::DescriptorSetLayout(third_step.descriptor_set_layout),
                ],
            ),
        },
{
    if let Ok(handle) = pipeline_layout {
        let objects = seq![DeviceObject::PipelineLayout(handle)] + second_step.objects();
        assert(objects =~= seq![
            DeviceObject::PipelineLayout(handle),
            DeviceObject::DescriptorSetLayout(second_step.descriptor_set_layout),
        ]);
        if let Ok(next) = second {
            assert(next.objects()[0] == objects[0]);
            assert(next.objects()[1] == objects[1]);
        }
    }
    if let Ok(handle) = shader {
        if let Ok(next) = third {
            let objects = seq![DeviceObject::ShaderModule(handle)] + third_step.objects();
            assert(next.objects()[0] == objects[0]);
            assert(next.objects()[1] == objects[1]);
            assert(next.objects()[2] == objects[2]);
        }
    }
}

/// A pipeline that was made has the layouts that it was made with, and its shader is spent. Where
/// none was made, everything is left to destroy, with whatever pipelines there are.
pub proof fn finished_pipelines_keep_their_layouts(
    step: PipelineStep,
    pipelines: Vec<RawHandle>,
    code: i32,
    result: Result<(ComputePipeline, DeviceObject), BuildFailure>,
    pipeline: ComputePipeline,
    objects: Vec<DeviceObject>,
)
    requires
        call_ensures(pipeline_created, (step, pipelines, code), result),
        call_ensures(ComputePipeline::teardown, (pipeline,), objects),
    ensures
        result is Ok <==> code == 0 && pipelines@.len() > 0,
        result matches Ok((made, spent)) ==> {
            &&& made.kind == step.kind
            &&& made.pipeline == pipelines@.last()
            &&& made.pipeline_layout == step.pipeline_layout
            &&& made.descriptor_set_layout == step.descriptor_set_layout
            &&& spent == DeviceObject::ShaderModule(step.shader)
        },
        result matches Err(failure) ==> {
            &&& failure.destroy@.contains(DeviceObject::ShaderModule(step.shader))
            &&& failure.destroy@.contains(DeviceObject::PipelineLayout(step.pipeline_layout))
            &&& failure.destroy@.contains(
                DeviceObject::DescriptorSetLayout(step.descriptor_set_layout),
            )
            &&& forall|index: int|
                0 <= index < pipelines@.len() ==> failure.destroy@.contains(
                    DeviceObject::Pipeline(#[trigger] pipelines@[index]),
                )
        },
        objects@ == seq![
            DeviceObject::Pipeline(pipeline.pipeline),
            DeviceObject::PipelineLayout(pipeline.pipeline_layout),
            DeviceObject::DescriptorSetLayout(pipeline.descriptor_set_layout),
        ],
{
    if let Ok((made, spent)) = result {
        let all = seq![spent] + made.objects();
        let wanted = seq![
            DeviceObject::ShaderModule(step.shader),
            DeviceObject::Pipeline(pipelines@.last()),
            DeviceObject::PipelineLayout(step.pipeline_layout),
            DeviceObject::DescriptorSetLayout(step.descriptor_set_layout),
        ];
        assert(all[0] == wanted[0] && all[1] == wanted[1] && all[2] == wanted[2] && all[3]
            == wanted[3]);
    }
    if let Err(failure) = result {
        let count = pipelines@.len() as int;
        if code != 0 {
            assert(failure.destroy@[0] == DeviceObject::ShaderModule(step.shader));
            assert(failure.destroy@[count + 1] == DeviceObject::PipelineLayout(
                step.pipeline_layout,
            ));
            assert(failure.destroy@[count + 2] == DeviceObject::DescriptorSetLayout(
                step.descriptor_set_layout,
            ));
            assert forall|index: int| 0 <= index < pipelines@.len() implies failure.destroy@.contains(
                DeviceObject::Pipeline(#[trigger] pipelines@[index]),
            ) by {
                assert(failure.destroy@[index + 1] == DeviceObject::Pipeline(pipelines@[index]));
            }
        } else {
            assert(failure.destroy@[0] == DeviceObject::ShaderModule(step.shader));
            assert(failure.destroy@[1] == DeviceObject::PipelineLayout(step.pipeline_layout));
            assert(failure.destroy@[2] == DeviceObject::DescriptorSetLayout(
                step.descriptor_set_layout,
            ));
        }
    }
}

/// An image that was made joins those that were made before; where it could not be made, every
/// object that there was is left to destroy.
pub proof fn made_images_join_the_output(
    build: OutputBuild,
    image: Result<ImageAllocation, VulkanImportError>,
    result: Result<OutputBuild, BuildFailure>,
    index: int,
)
    requires
        call_ensures(OutputBuild::image_made, (build, image), result),
    ensures
        result is Ok <==> image is Ok,
        result matches Ok(next) ==> image == Ok::<_, VulkanImportError>(next.images@.last())
            && next.images@.drop_last() =~= build.images@ && next.views@ == build.views@
            && next.descriptor_pool == build.descriptor_pool && next.plan == build.plan,
        result matches Err(failure) ==> image->Err_0@ == failure.error@ && (0 <= index
            < build.images@.len() ==> gives_back(failure, build, index)),
{
    if 0 <= index < build.images@.len() {
        lemma_objects_hold(build, index);
    }
}

/// A view that was made joins those that were made before; where it could not be made, every object
/// that there was is left to destroy.
pub proof fn made_views_join_the_output(
    build: OutputBuild,
    view: Result<RawHandle, i32>,
    result: Result<OutputBuild, BuildFailure>,
    index: int,
)
    requires
        call_ensures(OutputBuild::view_made, (build, view), result),
    ensures
        result is Ok <==> view is Ok,
        result matches Ok(next) ==> view == Ok::<_, i32>(next.views@.last())
            && next.views@.drop_last() =~= build.views@ && next.images@ == build.images@
            && next.descriptor_pool == build.descriptor_pool && next.plan == build.plan,
        result matches Err(failure) ==> 0 <= index < build.images@.len() ==> gives_back(
            failure,
            build,
            index,
        ),
{
    if 0 <= index < build.images@.len() {
        lemma_objects_hold(build, index);
    }
}

/// A descriptor pool that was made belongs to the output; where it could not be made, every object
/// that there was is left to destroy.
pub proof fn made_pools_join_the_output(
    build: OutputBuild,
    pool: Result<RawHandle, i32>,
    result: Result<OutputBuild, BuildFailure>,
    index: int,
)
    requires
        call_ensures(OutputBuild::descriptor_pool_made, (build, pool), result),
    ensures
        result is Ok <==> pool is Ok,
        result matches Ok(next) ==> next.descriptor_pool is Some && pool == Ok::<_, i32>(
            next.descriptor_pool.unwrap(),
        ) && next.images@ == build.images@ && next.views@ == build.views@ && next.plan
            == build.plan,
        result matches Err(failure) ==> 0 <= index < build.images@.len() ==> gives_back(
            failure,
            build,
            index,
        ),
{
    if 0 <= index < build.images@.len() {
        lemma_objects_hold(build, index);
    }
}

/// A descriptor set that was made is handed out with the output; where there is none, every object
/// that there was is left to destroy.
pub proof fn made_sets_come_with_the_output(
    build: OutputBuild,
    set: Result<Option<RawHandle>, i32>,
    result: Result<(OutputBuild, RawHandle), BuildFailure>,
    index: int,
)
    requires
        call_ensures(OutputBuild::descriptor_set_made, (build, set), result),
    ensures
        result is Ok <==> (set matches Ok(Some(_))),
        result matches Ok((next, handle)) ==> next == build && set == Ok::<_, i32>(Some(handle)),
        result matches Err(failure) ==> 0 <= index < build.images@.len() ==> gives_back(
            failure,
            build,
            index,
        ),
{
    if 0 <= index < build.images@.len() {
        lemma_objects_hold(build, index);
    }
}

/// The image at `index` is left to destroy, with its memory and its view, and so are the
/// descriptors.
pub open spec fn gives_back(failure: BuildFailure, build: OutputBuild, index: int) -> bool {
    let objects = failure.destroy@;
    &&& objects.contains(DeviceObject::Image(build.images@[index].image))
    &&& objects.contains(DeviceObject::Memory(build.images@[index].memory))
    &&& index < build.views@.len() ==> objects.contains(DeviceObject::ImageView(build.views@[index]))
    &&& build.descriptor_pool matches Some(pool) ==> objects[0] == DeviceObject::DescriptorPool(
        pool,
    )
}

proof fn lemma_image_objects(build: OutputBuild, index: int)
    requires
        0 <= index < build.images@.len(),
    ensures
        ({
            let own = crate::vulkan::output::image_objects(build.images@, build.views@, index);
            &&& own.contains(DeviceObject::Image(build.images@[index].image))
            &&& own.contains(DeviceObject::Memory(build.images@[index].memory))
            &&& index < build.views@.len() ==> own.contains(
                DeviceObject::ImageView(build.views@[index]),
            )
        }),
{
    let own = crate::vulkan::output::image_objects(build.images@, build.views@, index);
    if index < build.views@.len() {
        assert(own[0] == DeviceObject::ImageView(build.views@[index]));
        assert(own[1] == DeviceObject::Image(build.images@[index].image));
        assert(own[2] == DeviceObject::Memory(build.images@[index].memory));
    } else {
        assert(own[0] == DeviceObject::Image(build.images@[index].image));
        assert(own[1] == DeviceObject::Memory(build.images@[index].memory));
    }
}

proof fn lemma_parts_hold(build: OutputBuild, index: int, count: int, object: DeviceObject)
    requires
        0 <= index < count <= build.images@.len(),
        crate::vulkan::output::image_objects(build.images@, build.views@, index).contains(object),
    ensures
        crate::vulkan::output::oldest_first(build.images@, build.views@, count).contains(object),
        crate::vulkan::output::newest_first(build.images@, build.views@, count).contains(object),
    decreases count,
{
    let own = crate::vulkan::output::image_objects(build.images@, build.views@, count - 1);
    let older = crate::vulkan::output::oldest_first(build.images@, build.views@, count - 1);
    let newer = crate::vulkan::output::newest_first(build.images@, build.views@, count - 1);
    if index == count - 1 {
        let at = choose|at: int| 0 <= at < own.len() && own[at] == object;
        assert((older + own)[older.len() + at] == object);
        assert((own + newer)[at] == object);
    } else {
        lemma_parts_hold(build, index, count - 1, object);
        let at = choose|at: int| 0 <= at < older.len() && older[at] == object;
        assert((older + own)[at] == object);
        let new_at = choose|at: int| 0 <= at < newer.len() && newer[at] == object;
        assert((own + newer)[own.len() + new_at] == object);
    }
}

proof fn lemma_objects_hold(build: OutputBuild, index: int)
    requires
        0 <= index < build.images@.len(),
    ensures
        build.objects().contains(DeviceObject::Image(build.images@[index].image)),
        build.objects().contains(DeviceObject::Memory(build.images@[index].memory)),
        index < build.views@.len() ==> build.objects().contains(
            DeviceObject::ImageView(build.views@[index]),
        ),
        build.descriptor_pool matches Some(pool) ==> build.objects()[0]
            == DeviceObject::DescriptorPool(pool),
{
    lemma_image_objects(build, index);
    lemma_one_object(build, index, DeviceObject::Image(build.images@[index].image));
    lemma_one_object(build, index, DeviceObject::Memory(build.images@[index].memory));
    if index < build.views@.len() {
        lemma_one_object(build, index, DeviceObject::ImageView(build.views@[index]));
    }
}

proof fn lemma_one_object(build: OutputBuild, index: int, object: DeviceObject)
    requires
        0 <= index < build.images@.len(),
        crate::vulkan::output::image_objects(build.images@, build.views@, index).contains(object),
    ensures
        build.objects().contains(object),
{
    let count = build.images@.len() as int;
    lemma_parts_hold(build, index, count, object);
    let before = match build.descriptor_pool {
        Some(pool) => seq![DeviceObject::DescriptorPool(pool)],
        None => Seq::empty(),
    };
    let rest = if build.has_images() {
        crate::vulkan::output::oldest_first(build.images@, build.views@, count)
    } else {
        crate::vulkan::output::newest_first(build.images@, build.views@, count)
    };
    let at = choose|at: int| 0 <= at < rest.len() && rest[at] == object;
    assert((before + rest)[before.len() + at] == object);
    assert(build.objects() == before + rest);
}

} // verus!
