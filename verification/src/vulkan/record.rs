//! The commands that acquire an imported image for the renderer and give it back.

use vstd::prelude::*;

use crate::text::agrees;
use crate::vulkan::flags::{
    AccessFlags, ImageAspectFlags, ImageLayout, PipelineStageFlags, RawHandle, ACCESS_MEMORY_READ,
    ACCESS_NONE, ACCESS_SHADER_READ, ACCESS_SHADER_WRITE, ACCESS_TRANSFER_READ,
    ACCESS_TRANSFER_WRITE, DMA_BUF_EXTERNAL_QUEUE_FAMILY, IMAGE_ASPECT_COLOR, IMAGE_ASPECT_PLANE_0,
    IMAGE_ASPECT_PLANE_1, LAYOUT_GENERAL, LAYOUT_SHADER_READ_ONLY_OPTIMAL,
    LAYOUT_TRANSFER_DST_OPTIMAL, LAYOUT_UNDEFINED, QUEUE_FAMILY_IGNORED, STAGE_ALL_COMMANDS,
    STAGE_BOTTOM_OF_PIPE, STAGE_COMPUTE_SHADER, STAGE_FRAGMENT_SHADER, STAGE_TOP_OF_PIPE,
    STAGE_TRANSFER,
};
use crate::vulkan::image::{
    AcquirePlan, StagedAcquirePlan, StagedPushConstants, StagedTransferPlan,
};
use crate::vulkan::layout::{frame_span, transfer_layout_verdict};
use crate::vulkan::resources::StagedSampledImages;
use crate::vulkan::result::{failure, failure_text};
use crate::vulkan::types::Nv12SharedObjectLayout;

verus! {

/// A memory barrier on a whole source buffer.
#[derive(Clone, Copy, Debug, PartialEq, Eq, Structural)]
pub struct BufferBarrier {
    pub source_access: AccessFlags,
    pub destination_access: AccessFlags,
    pub source_family: u32,
    pub destination_family: u32,
    pub buffer: RawHandle,
    pub size: u64,
}

/// A memory barrier on the color aspect of an image.
#[derive(Clone, Copy, Debug, PartialEq, Eq, Structural)]
pub struct ImageBarrier {
    pub source_access: AccessFlags,
    pub destination_access: AccessFlags,
    pub old_layout: ImageLayout,
    pub new_layout: ImageLayout,
    pub source_family: u32,
    pub destination_family: u32,
    pub image: RawHandle,
}

/// A copy of one plane from a buffer into an image, from its corner on.
#[derive(Clone, Copy, Debug, PartialEq, Eq, Structural)]
pub struct BufferImageCopy {
    pub buffer_offset: u64,
    /// Texels from one row to the next.
    pub buffer_row_length: u32,
    pub aspect: ImageAspectFlags,
    pub width: u32,
    pub height: u32,
}

/// One command.
#[derive(Clone, Copy, Debug, PartialEq, Eq)]
pub enum CommandStep {
    ResetTimestamps { pool: RawHandle, first: u32, count: u32 },
    WriteTimestamp { stage: PipelineStageFlags, pool: RawHandle, index: u32 },
    Barrier {
        source_stage: PipelineStageFlags,
        destination_stage: PipelineStageFlags,
        buffer: Option<BufferBarrier>,
        first_image: Option<ImageBarrier>,
        second_image: Option<ImageBarrier>,
    },
    BindComputePipeline { pipeline: RawHandle },
    BindDescriptorSet { layout: RawHandle, set: RawHandle },
    PushConstants { layout: RawHandle, constants: StagedPushConstants },
    Dispatch { groups: (u32, u32) },
    CopyBufferToImage {
        buffer: RawHandle,
        image: RawHandle,
        layout: ImageLayout,
        region: BufferImageCopy,
        second_region: Option<BufferImageCopy>,
    },
}

/// The recording of commands was begun.
pub fn begin_command(begun: Result<(), i32>) -> (result: Result<(), String>)
    ensures
        agrees(
            result,
            match begun {
                Ok(()) => Ok(()),
                Err(code) => Err(
                    failure_text("failed to begin Vulkan import command buffer: "@, code),
                ),
            },
        ),
{
    match begun {
        Ok(()) => Ok(()),
        Err(code) => Err(failure("failed to begin Vulkan import command buffer: ", code)),
    }
}

/// The recording of commands was ended.
pub fn end_command(ended: Result<(), i32>) -> (result: Result<(), String>)
    ensures
        agrees(
            result,
            match ended {
                Ok(()) => Ok(()),
                Err(code) => Err(
                    failure_text("failed to end Vulkan import command buffer: "@, code),
                ),
            },
        ),
{
    match ended {
        Ok(()) => Ok(()),
        Err(code) => Err(failure("failed to end Vulkan import command buffer: ", code)),
    }
}

/// A barrier on one image.
pub open spec fn image_step(
    source_stage: PipelineStageFlags,
    destination_stage: PipelineStageFlags,
    barrier: ImageBarrier,
) -> CommandStep {
    CommandStep::Barrier {
        source_stage,
        destination_stage,
        buffer: None,
        first_image: Some(barrier),
        second_image: None,
    }
}

/// The barrier that takes a direct image over from the producer. The producer fills the memory in
/// the general layout, and its contents are kept.
pub open spec fn direct_acquire_barrier(image: RawHandle, family: u32) -> ImageBarrier {
    ImageBarrier {
        source_access: ACCESS_NONE,
        destination_access: ACCESS_SHADER_READ,
        old_layout: LAYOUT_GENERAL,
        new_layout: LAYOUT_SHADER_READ_ONLY_OPTIMAL,
        source_family: DMA_BUF_EXTERNAL_QUEUE_FAMILY,
        destination_family: family,
        image,
    }
}

/// The barrier that gives a direct image back to the producer.
pub open spec fn direct_release_barrier(image: RawHandle, family: u32) -> ImageBarrier {
    ImageBarrier {
        source_access: ACCESS_MEMORY_READ,
        destination_access: ACCESS_NONE,
        old_layout: LAYOUT_SHADER_READ_ONLY_OPTIMAL,
        new_layout: LAYOUT_GENERAL,
        source_family: family,
        destination_family: DMA_BUF_EXTERNAL_QUEUE_FAMILY,
        image,
    }
}

/// The commands of `record_direct_acquire`.
pub open spec fn direct_acquire_steps(image: RawHandle, family: u32) -> Seq<CommandStep> {
    seq![
        image_step(
            STAGE_TOP_OF_PIPE,
            STAGE_FRAGMENT_SHADER,
            direct_acquire_barrier(image, family),
        ),
    ]
}

/// The commands of `record_direct_release`.
pub open spec fn direct_release_steps(image: RawHandle, family: u32) -> Seq<CommandStep> {
    seq![
        image_step(
            STAGE_ALL_COMMANDS,
            STAGE_BOTTOM_OF_PIPE,
            direct_release_barrier(image, family),
        ),
    ]
}

/// The commands that take a direct image over from the producer.
pub fn record_direct_acquire(image: RawHandle, family: u32) -> (steps: Vec<CommandStep>)
    ensures
        steps@ == direct_acquire_steps(image, family),
{
    let mut steps: Vec<CommandStep> = Vec::new();
    steps.push(
        CommandStep::Barrier {
            source_stage: STAGE_TOP_OF_PIPE,
            destination_stage: STAGE_FRAGMENT_SHADER,
            buffer: None,
            first_image: Some(
                ImageBarrier {
                    source_access: ACCESS_NONE,
                    destination_access: ACCESS_SHADER_READ,
                    old_layout: LAYOUT_GENERAL,
                    new_layout: LAYOUT_SHADER_READ_ONLY_OPTIMAL,
                    source_family: DMA_BUF_EXTERNAL_QUEUE_FAMILY,
                    destination_family: family,
                    image,
                },
            ),
            second_image: None,
        },
    );
    assert(steps@ =~= direct_acquire_steps(image, family));
    steps
}

/// The commands that give a direct image back to the producer.
pub fn record_direct_release(image: RawHandle, family: u32) -> (steps: Vec<CommandStep>)
    ensures
        steps@ == direct_release_steps(image, family),
{
    let mut steps: Vec<CommandStep> = Vec::new();
    steps.push(
        CommandStep::Barrier {
            source_stage: STAGE_ALL_COMMANDS,
            destination_stage: STAGE_BOTTOM_OF_PIPE,
            buffer: None,
            first_image: Some(
                ImageBarrier {
                    source_access: ACCESS_MEMORY_READ,
                    destination_access: ACCESS_NONE,
                    old_layout: LAYOUT_SHADER_READ_ONLY_OPTIMAL,
                    new_layout: LAYOUT_GENERAL,
                    source_family: family,
                    destination_family: DMA_BUF_EXTERNAL_QUEUE_FAMILY,
                    image,
                },
            ),
            second_image: None,
        },
    );
    assert(steps@ =~= direct_release_steps(image, family));
    steps
}

/// The images of a staged output: one, or luma and chroma.
pub open spec fn staged_images(output: StagedSampledImages) -> (RawHandle, Option<RawHandle>) {
    match output {
        StagedSampledImages::Rgba { image } => (image, None),
        StagedSampledImages::Bgra { image } => (image, None),
        StagedSampledImages::Nv12 { image } => (image, None),
        StagedSampledImages::YuvPlanes { luma, chroma } => (luma, Some(chroma)),
    }
}

/// The images of a staged output: one, or luma and chroma.
pub fn staged_output_images(output: StagedSampledImages) -> (images: (RawHandle, Option<RawHandle>))
    ensures
        images == staged_images(output),
{
    match output {
        StagedSampledImages::Rgba { image } => (image, None),
        StagedSampledImages::Bgra { image } => (image, None),
        StagedSampledImages::Nv12 { image } => (image, None),
        StagedSampledImages::YuvPlanes { luma, chroma } => (luma, Some(chroma)),
    }
}

/// The commands that begin a timed acquire.
pub open spec fn first_timestamp(query: Option<RawHandle>) -> Seq<CommandStep> {
    match query {
        Some(pool) => seq![
            CommandStep::ResetTimestamps { pool, first: 0, count: 3 },
            CommandStep::WriteTimestamp { stage: STAGE_TOP_OF_PIPE, pool, index: 0 },
        ],
        None => Seq::empty(),
    }
}

/// The command that takes a later timestamp.
pub open spec fn later_timestamp(query: Option<RawHandle>, index: u32) -> Seq<CommandStep> {
    match query {
        Some(pool) => seq![
            CommandStep::WriteTimestamp { stage: STAGE_BOTTOM_OF_PIPE, pool, index },
        ],
        None => Seq::empty(),
    }
}

/// How a staged copy reads its source and writes its outputs.
#[derive(Clone, Copy, Debug, PartialEq, Eq, Structural)]
pub struct CopyAccess {
    pub stage: PipelineStageFlags,
    pub read: AccessFlags,
    pub write: AccessFlags,
    pub write_layout: ImageLayout,
}

/// How a compute shader reads and writes.
pub open spec fn compute_access() -> CopyAccess {
    CopyAccess {
        stage: STAGE_COMPUTE_SHADER,
        read: ACCESS_SHADER_READ,
        write: ACCESS_SHADER_WRITE,
        write_layout: LAYOUT_GENERAL,
    }
}

/// How a transfer reads and writes.
pub open spec fn transfer_access() -> CopyAccess {
    CopyAccess {
        stage: STAGE_TRANSFER,
        read: ACCESS_TRANSFER_READ,
        write: ACCESS_TRANSFER_WRITE,
        write_layout: LAYOUT_TRANSFER_DST_OPTIMAL,
    }
}

/// The barrier before an output is written. What an output held before is discarded.
pub open spec fn output_acquire_barrier(
    access: CopyAccess,
    image: RawHandle,
    initialized: bool,
) -> ImageBarrier {
    ImageBarrier {
        source_access: if initialized {
            ACCESS_SHADER_READ
        } else {
            ACCESS_NONE
        },
        destination_access: access.write,
        old_layout: if initialized {
            LAYOUT_SHADER_READ_ONLY_OPTIMAL
        } else {
            LAYOUT_UNDEFINED
        },
        new_layout: access.write_layout,
        source_family: QUEUE_FAMILY_IGNORED,
        destination_family: QUEUE_FAMILY_IGNORED,
        image,
    }
}

/// The barrier before an output is sampled.
pub open spec fn output_release_barrier(access: CopyAccess, image: RawHandle) -> ImageBarrier {
    ImageBarrier {
        source_access: access.write,
        destination_access: ACCESS_SHADER_READ,
        old_layout: access.write_layout,
        new_layout: LAYOUT_SHADER_READ_ONLY_OPTIMAL,
        source_family: QUEUE_FAMILY_IGNORED,
        destination_family: QUEUE_FAMILY_IGNORED,
        image,
    }
}

/// The barrier on one more image, where there is one.
pub open spec fn output_acquire_barriers(
    access: CopyAccess,
    image: Option<RawHandle>,
    initialized: bool,
) -> Option<ImageBarrier> {
    match image {
        Some(image) => Some(output_acquire_barrier(access, image, initialized)),
        None => None,
    }
}

/// The barrier on one more image, where there is one.
pub open spec fn output_release_barriers(access: CopyAccess, image: Option<RawHandle>) -> Option<
    ImageBarrier,
> {
    match image {
        Some(image) => Some(output_release_barrier(access, image)),
        None => None,
    }
}

/// The command before a staged copy: the source comes from the producer, the outputs may be
/// written.
pub open spec fn staged_acquire_step(
    access: CopyAccess,
    source: (RawHandle, u64),
    output: StagedSampledImages,
    initialized: bool,
    family: u32,
) -> CommandStep {
    let (first, second) = staged_images(output);
    CommandStep::Barrier {
        source_stage: if initialized {
            STAGE_FRAGMENT_SHADER
        } else {
            STAGE_TOP_OF_PIPE
        },
        destination_stage: access.stage,
        buffer: Some(
            BufferBarrier {
                source_access: ACCESS_NONE,
                destination_access: access.read,
                source_family: DMA_BUF_EXTERNAL_QUEUE_FAMILY,
                destination_family: family,
                buffer: source.0,
                size: source.1,
            },
        ),
        first_image: Some(output_acquire_barrier(access, first, initialized)),
        second_image: output_acquire_barriers(access, second, initialized),
    }
}

/// The command after a staged copy that lets the renderer sample the outputs.
pub open spec fn output_release_step(access: CopyAccess, output: StagedSampledImages) -> CommandStep {
    let (first, second) = staged_images(output);
    CommandStep::Barrier {
        source_stage: access.stage,
        destination_stage: STAGE_FRAGMENT_SHADER,
        buffer: None,
        first_image: Some(output_release_barrier(access, first)),
        second_image: output_release_barriers(access, second),
    }
}

/// The command after a staged copy that gives the source back to the producer.
pub open spec fn source_release_step(
    access: CopyAccess,
    source: (RawHandle, u64),
    family: u32,
) -> CommandStep {
    CommandStep::Barrier {
        source_stage: access.stage,
        destination_stage: STAGE_BOTTOM_OF_PIPE,
        buffer: Some(
            BufferBarrier {
                source_access: access.read,
                destination_access: ACCESS_NONE,
                source_family: family,
                destination_family: DMA_BUF_EXTERNAL_QUEUE_FAMILY,
                buffer: source.0,
                size: source.1,
            },
        ),
        first_image: None,
        second_image: None,
    }
}

fn acquire_image_barrier(access: CopyAccess, image: RawHandle, initialized: bool) -> (barrier:
    ImageBarrier)
    ensures
        barrier == output_acquire_barrier(access, image, initialized),
{
    ImageBarrier {
        source_access: if initialized {
            ACCESS_SHADER_READ
        } else {
            ACCESS_NONE
        },
        destination_access: access.write,
        old_layout: if initialized {
            LAYOUT_SHADER_READ_ONLY_OPTIMAL
        } else {
            LAYOUT_UNDEFINED
        },
        new_layout: access.write_layout,
        source_family: QUEUE_FAMILY_IGNORED,
        destination_family: QUEUE_FAMILY_IGNORED,
        image,
    }
}

fn release_image_barrier(access: CopyAccess, image: RawHandle) -> (barrier: ImageBarrier)
    ensures
        barrier == output_release_barrier(access, image),
{
    ImageBarrier {
        source_access: access.write,
        destination_access: ACCESS_SHADER_READ,
        old_layout: access.write_layout,
        new_layout: LAYOUT_SHADER_READ_ONLY_OPTIMAL,
        source_family: QUEUE_FAMILY_IGNORED,
        destination_family: QUEUE_FAMILY_IGNORED,
        image,
    }
}

fn push_first_timestamp(steps: &mut Vec<CommandStep>, query: Option<RawHandle>)
    ensures
        final(steps)@ == old(steps)@ + first_timestamp(query),
{
    match query {
        Some(pool) => {
            steps.push(CommandStep::ResetTimestamps { pool, first: 0, count: 3 });
            steps.push(CommandStep::WriteTimestamp { stage: STAGE_TOP_OF_PIPE, pool, index: 0 });
        },
        None => {},
    }
    assert(steps@ =~= old(steps)@ + first_timestamp(query));
}

fn push_later_timestamp(steps: &mut Vec<CommandStep>, query: Option<RawHandle>, index: u32)
    ensures
        final(steps)@ == old(steps)@ + later_timestamp(query, index),
{
    match query {
        Some(pool) => {
            steps.push(CommandStep::WriteTimestamp { stage: STAGE_BOTTOM_OF_PIPE, pool, index });
        },
        None => {},
    }
    assert(steps@ =~= old(steps)@ + later_timestamp(query, index));
}

fn push_staged_acquire(
    steps: &mut Vec<CommandStep>,
    access: CopyAccess,
    source: (RawHandle, u64),
    output: StagedSampledImages,
    initialized: bool,
    family: u32,
)
    ensures
        final(steps)@ == old(steps)@.push(
            staged_acquire_step(access, source, output, initialized, family),
        ),
{
    let (first, second): (u64, Option<u64>) = staged_output_images(output);
    let second_image = match second {
        Some(image) => Some(acquire_image_barrier(access, image, initialized)),
        None => None,
    };
    steps.push(
        CommandStep::Barrier {
            source_stage: if initialized {
                STAGE_FRAGMENT_SHADER
            } else {
                STAGE_TOP_OF_PIPE
            },
            destination_stage: access.stage,
            buffer: Some(
                BufferBarrier {
                    source_access: ACCESS_NONE,
                    destination_access: access.read,
                    source_family: DMA_BUF_EXTERNAL_QUEUE_FAMILY,
                    destination_family: family,
                    buffer: source.0,
                    size: source.1,
                },
            ),
            first_image: Some(acquire_image_barrier(access, first, initialized)),
            second_image,
        },
    );
}

fn push_staged_release(
    steps: &mut Vec<CommandStep>,
    access: CopyAccess,
    source: (RawHandle, u64),
    output: StagedSampledImages,
    family: u32,
)
    ensures
        final(steps)@ == old(steps)@.push(output_release_step(access, output)).push(
            source_release_step(access, source, family),
        ),
{
    let (first, second): (u64, Option<u64>) = staged_output_images(output);
    let second_image = match second {
        Some(image) => Some(release_image_barrier(access, image)),
        None => None,
    };
    steps.push(
        CommandStep::Barrier {
            source_stage: access.stage,
            destination_stage: STAGE_FRAGMENT_SHADER,
            buffer: None,
            first_image: Some(release_image_barrier(access, first)),
            second_image,
        },
    );
    steps.push(
        CommandStep::Barrier {
            source_stage: access.stage,
            destination_stage: STAGE_BOTTOM_OF_PIPE,
            buffer: Some(
                BufferBarrier {
                    source_access: access.read,
                    destination_access: ACCESS_NONE,
                    source_family: family,
                    destination_family: DMA_BUF_EXTERNAL_QUEUE_FAMILY,
                    buffer: source.0,
                    size: source.1,
                },
            ),
            first_image: None,
            second_image: None,
        },
    );
}

/// The commands of `record_staged_acquire`.
pub open spec fn staged_acquire_steps(
    plan: StagedAcquirePlan,
    family: u32,
    query: Option<RawHandle>,
) -> Seq<CommandStep> {
    let access = compute_access();
    let source = (plan.source_buffer, plan.source_size);
    first_timestamp(query) + seq![
        staged_acquire_step(access, source, plan.output, plan.output_initialized, family),
        CommandStep::BindComputePipeline { pipeline: plan.pipeline },
        CommandStep::BindDescriptorSet { layout: plan.pipeline_layout, set: plan.descriptor_set },
        CommandStep::PushConstants {
            layout: plan.pipeline_layout,
            constants: plan.push_constants,
        },
        CommandStep::Dispatch { groups: plan.dispatch },
        output_release_step(access, plan.output),
        source_release_step(access, source, family),
    ] + later_timestamp(query, 1)
}

/// The commands that run the compute shader of a staged frame: the source is taken over, read and
/// given back in one submission, and the outputs are left for the renderer to sample.
pub fn record_staged_acquire(
    plan: StagedAcquirePlan,
    family: u32,
    query: Option<RawHandle>,
) -> (steps: Vec<CommandStep>)
    ensures
        steps@ == staged_acquire_steps(plan, family, query),
{
    let access = CopyAccess {
        stage: STAGE_COMPUTE_SHADER,
        read: ACCESS_SHADER_READ,
        write: ACCESS_SHADER_WRITE,
        write_layout: LAYOUT_GENERAL,
    };
    let source: (u64, u64) = (plan.source_buffer, plan.source_size);
    let mut steps: Vec<CommandStep> = Vec::new();
    push_first_timestamp(&mut steps, query);
    push_staged_acquire(
        &mut steps,
        access,
        source,
        plan.output,
        plan.output_initialized,
        family,
    );
    steps.push(CommandStep::BindComputePipeline { pipeline: plan.pipeline });
    steps.push(
        CommandStep::BindDescriptorSet { layout: plan.pipeline_layout, set: plan.descriptor_set },
    );
    steps.push(
        CommandStep::PushConstants {
            layout: plan.pipeline_layout,
            constants: plan.push_constants,
        },
    );
    steps.push(CommandStep::Dispatch { groups: plan.dispatch });
    push_staged_release(&mut steps, access, source, plan.output, family);
    push_later_timestamp(&mut steps, query, 1);
    assert(steps@ =~= staged_acquire_steps(plan, family, query));
    steps
}

/// A copy of one plane.
pub fn nv12_transfer_region(
    aspect: ImageAspectFlags,
    buffer_offset: u64,
    buffer_row_length: u32,
    width: u32,
    height: u32,
) -> (region: BufferImageCopy)
    ensures
        region == (BufferImageCopy { buffer_offset, buffer_row_length, aspect, width, height }),
{
    BufferImageCopy { buffer_offset, buffer_row_length, aspect, width, height }
}

/// The copy of the luma plane, whose texels are bytes.
pub open spec fn luma_region(plan: StagedTransferPlan, aspect: ImageAspectFlags) -> BufferImageCopy {
    BufferImageCopy {
        buffer_offset: plan.planes[0].offset,
        buffer_row_length: plan.planes[0].pitch,
        aspect,
        width: plan.dimensions.0,
        height: plan.dimensions.1,
    }
}

/// The copy of the chroma plane, whose texels are pairs of bytes.
pub open spec fn chroma_region(plan: StagedTransferPlan, aspect: ImageAspectFlags) ->
    BufferImageCopy {
    BufferImageCopy {
        buffer_offset: plan.planes[1].offset,
        buffer_row_length: plan.planes[1].pitch / 2,
        aspect,
        width: plan.dimensions.0 / 2,
        height: plan.dimensions.1 / 2,
    }
}

/// The copies into the planes of one multi-planar image.
pub fn nv12_multiplanar_transfer_regions(plan: StagedTransferPlan) -> (regions: [BufferImageCopy; 2])
    ensures
        regions@ == seq![
            luma_region(plan, IMAGE_ASPECT_PLANE_0),
            chroma_region(plan, IMAGE_ASPECT_PLANE_1),
        ],
{
    let regions = [
        nv12_transfer_region(
            IMAGE_ASPECT_PLANE_0,
            plan.planes[0].offset,
            plan.planes[0].pitch,
            plan.dimensions.0,
            plan.dimensions.1,
        ),
        nv12_transfer_region(
            IMAGE_ASPECT_PLANE_1,
            plan.planes[1].offset,
            plan.planes[1].pitch / 2,
            plan.dimensions.0 / 2,
            plan.dimensions.1 / 2,
        ),
    ];
    assert(regions@ =~= seq![
        luma_region(plan, IMAGE_ASPECT_PLANE_0),
        chroma_region(plan, IMAGE_ASPECT_PLANE_1),
    ]);
    regions
}

/// The copies into separate luma and chroma images.
pub fn nv12_separate_transfer_regions(plan: StagedTransferPlan) -> (regions: [BufferImageCopy; 2])
    ensures
        regions@ == seq![
            luma_region(plan, IMAGE_ASPECT_COLOR),
            chroma_region(plan, IMAGE_ASPECT_COLOR),
        ],
{
    let regions = [
        nv12_transfer_region(
            IMAGE_ASPECT_COLOR,
            plan.planes[0].offset,
            plan.planes[0].pitch,
            plan.dimensions.0,
            plan.dimensions.1,
        ),
        nv12_transfer_region(
            IMAGE_ASPECT_COLOR,
            plan.planes[1].offset,
            plan.planes[1].pitch / 2,
            plan.dimensions.0 / 2,
            plan.dimensions.1 / 2,
        ),
    ];
    assert(regions@ =~= seq![
        luma_region(plan, IMAGE_ASPECT_COLOR),
        chroma_region(plan, IMAGE_ASPECT_COLOR),
    ]);
    regions
}

/// The copies of a staged transfer.
pub open spec fn transfer_copies(plan: StagedTransferPlan) -> Seq<CommandStep> {
    match plan.output {
        StagedSampledImages::Nv12 { image } => seq![
            CommandStep::CopyBufferToImage {
                buffer: plan.source_buffer,
                image,
                layout: LAYOUT_TRANSFER_DST_OPTIMAL,
                region: luma_region(plan, IMAGE_ASPECT_PLANE_0),
                second_region: Some(chroma_region(plan, IMAGE_ASPECT_PLANE_1)),
            },
        ],
        StagedSampledImages::YuvPlanes { luma, chroma } => seq![
            CommandStep::CopyBufferToImage {
                buffer: plan.source_buffer,
                image: luma,
                layout: LAYOUT_TRANSFER_DST_OPTIMAL,
                region: luma_region(plan, IMAGE_ASPECT_COLOR),
                second_region: None,
            },
            CommandStep::CopyBufferToImage {
                buffer: plan.source_buffer,
                image: chroma,
                layout: LAYOUT_TRANSFER_DST_OPTIMAL,
                region: chroma_region(plan, IMAGE_ASPECT_COLOR),
                second_region: None,
            },
        ],
        _ => Seq::empty(),
    }
}

/// The commands of `record_staged_transfer_acquire`.
pub open spec fn transfer_acquire_steps(
    plan: StagedTransferPlan,
    family: u32,
    query: Option<RawHandle>,
) -> Seq<CommandStep> {
    let access = transfer_access();
    let source = (plan.source_buffer, plan.source_size);
    first_timestamp(query) + seq![
        staged_acquire_step(access, source, plan.output, plan.output_initialized, family),
    ] + transfer_copies(plan) + seq![
        output_release_step(access, plan.output),
        source_release_step(access, source, family),
    ] + later_timestamp(query, 1)
}

/// The output can hold the planes of a frame.
pub open spec fn is_planar(output: StagedSampledImages) -> bool {
    output is Nv12 || output is YuvPlanes
}

/// The commands that copy the planes of a staged frame: the source is taken over, read and given
/// back in one submission, and the outputs are left for the renderer to sample.
pub fn record_staged_transfer_acquire(
    plan: StagedTransferPlan,
    family: u32,
    query: Option<RawHandle>,
) -> (result: Result<Vec<CommandStep>, String>)
    ensures
        if is_planar(plan.output) {
            result matches Ok(steps) && steps@ == transfer_acquire_steps(plan, family, query)
        } else {
            result matches Err(message) && message@
                == "Vulkan NV12 transfer has a non-planar output"@
        },
{
    match plan.output {
        StagedSampledImages::Rgba { .. } | StagedSampledImages::Bgra { .. } => {
            return Err("Vulkan NV12 transfer has a non-planar output".to_owned());
        },
        _ => {},
    }
    let access = CopyAccess {
        stage: STAGE_TRANSFER,
        read: ACCESS_TRANSFER_READ,
        write: ACCESS_TRANSFER_WRITE,
        write_layout: LAYOUT_TRANSFER_DST_OPTIMAL,
    };
    let source: (u64, u64) = (plan.source_buffer, plan.source_size);
    let mut steps: Vec<CommandStep> = Vec::new();
    push_first_timestamp(&mut steps, query);
    push_staged_acquire(
        &mut steps,
        access,
        source,
        plan.output,
        plan.output_initialized,
        family,
    );
    match plan.output {
        StagedSampledImages::Nv12 { image } => {
            let regions = nv12_multiplanar_transfer_regions(plan);
            steps.push(
                CommandStep::CopyBufferToImage {
                    buffer: plan.source_buffer,
                    image,
                    layout: LAYOUT_TRANSFER_DST_OPTIMAL,
                    region: regions[0],
                    second_region: Some(regions[1]),
                },
            );
        },
        StagedSampledImages::YuvPlanes { luma, chroma } => {
            let regions = nv12_separate_transfer_regions(plan);
            steps.push(
                CommandStep::CopyBufferToImage {
                    buffer: plan.source_buffer,
                    image: luma,
                    layout: LAYOUT_TRANSFER_DST_OPTIMAL,
                    region: regions[0],
                    second_region: None,
                },
            );
            steps.push(
                CommandStep::CopyBufferToImage {
                    buffer: plan.source_buffer,
                    image: chroma,
                    layout: LAYOUT_TRANSFER_DST_OPTIMAL,
                    region: regions[1],
                    second_region: None,
                },
            );
        },
        _ => {},
    }
    push_staged_release(&mut steps, access, source, plan.output, family);
    push_later_timestamp(&mut steps, query, 1);
    assert(steps@ =~= transfer_acquire_steps(plan, family, query));
    Ok(steps)
}

/// The commands of a staged release: nothing but the last timestamp, because the source was given
/// back before.
pub fn record_staged_release(query: Option<RawHandle>) -> (steps: Vec<CommandStep>)
    ensures
        steps@ == later_timestamp(query, 2),
{
    let mut steps: Vec<CommandStep> = Vec::new();
    push_later_timestamp(&mut steps, query, 2);
    assert(steps@ =~= later_timestamp(query, 2));
    steps
}

/// The commands that a plan asks for, or why there are none. Direct images are not timed.
pub open spec fn acquire_verdict(
    plan: AcquirePlan,
    family: u32,
    query: Option<RawHandle>,
) -> Result<Seq<CommandStep>, Seq<char>> {
    match plan {
        AcquirePlan::DirectImage { image } => Ok(direct_acquire_steps(image, family)),
        AcquirePlan::StagedCompute(plan) => Ok(staged_acquire_steps(plan, family, query)),
        AcquirePlan::StagedTransfer(plan) => if is_planar(plan.output) {
            Ok(transfer_acquire_steps(plan, family, query))
        } else {
            Err("Vulkan NV12 transfer has a non-planar output"@)
        },
    }
}

/// The commands that a plan asks for.
pub fn record_acquire(plan: AcquirePlan, family: u32, query: Option<RawHandle>) -> (result: Result<
    Vec<CommandStep>,
    String,
>)
    ensures
        match (result, acquire_verdict(plan, family, query)) {
            (Ok(steps), Ok(expected)) => steps@ == expected,
            (Err(message), Err(text)) => message@ == text,
            _ => false,
        },
{
    match plan {
        AcquirePlan::DirectImage { image } => Ok(record_direct_acquire(image, family)),
        AcquirePlan::StagedCompute(plan) => Ok(record_staged_acquire(plan, family, query)),
        AcquirePlan::StagedTransfer(plan) => record_staged_transfer_acquire(plan, family, query),
    }
}

/// Runs commands and follows who owns a buffer. A barrier that hands the buffer over has to name
/// its owner, and a copy or dispatch may read it only while `family` owns it.
pub open spec fn buffer_owner(
    steps: Seq<CommandStep>,
    buffer: RawHandle,
    owner: u32,
    family: u32,
) -> Option<u32>
    decreases steps.len(),
{
    if steps.len() == 0 {
        Some(owner)
    } else {
        let rest = steps.drop_first();
        match steps[0] {
            CommandStep::Barrier { buffer: Some(barrier), .. } => if barrier.buffer != buffer {
                buffer_owner(rest, buffer, owner, family)
            } else if barrier.source_family != owner {
                None
            } else {
                buffer_owner(rest, buffer, barrier.destination_family, family)
            },
            CommandStep::CopyBufferToImage { .. } | CommandStep::Dispatch { .. } => if owner
                != family {
                None
            } else {
                buffer_owner(rest, buffer, owner, family)
            },
            _ => buffer_owner(rest, buffer, owner, family),
        }
    }
}

/// The layout of an image behind a barrier, where the barrier is about the image. The layout that it
/// names as the old one has to be the image's, unless the contents are discarded.
pub open spec fn layout_behind(
    barrier: Option<ImageBarrier>,
    image: RawHandle,
    layout: Option<ImageLayout>,
) -> Option<ImageLayout> {
    match (barrier, layout) {
        (Some(barrier), Some(current)) if barrier.image == image => if barrier.old_layout == current
            || barrier.old_layout == LAYOUT_UNDEFINED {
            Some(barrier.new_layout)
        } else {
            None
        },
        _ => layout,
    }
}

/// Runs commands and follows the layout of an image.
pub open spec fn image_layout(
    steps: Seq<CommandStep>,
    image: RawHandle,
    layout: Option<ImageLayout>,
) -> Option<ImageLayout>
    decreases steps.len(),
{
    if steps.len() == 0 {
        layout
    } else {
        let rest = steps.drop_first();
        match steps[0] {
            CommandStep::Barrier { first_image, second_image, .. } => image_layout(
                rest,
                image,
                layout_behind(second_image, image, layout_behind(first_image, image, layout)),
            ),
            CommandStep::CopyBufferToImage { image: written, layout: wanted, .. } => if written
                == image && layout != Some(wanted) {
                None
            } else {
                image_layout(rest, image, layout)
            },
            _ => image_layout(rest, image, layout),
        }
    }
}

/// The timestamps that commands take, in order.
pub open spec fn timestamps_taken(steps: Seq<CommandStep>) -> Seq<u32>
    decreases steps.len(),
{
    if steps.len() == 0 {
        Seq::empty()
    } else {
        let rest = timestamps_taken(steps.drop_first());
        match steps[0] {
            CommandStep::WriteTimestamp { index, .. } => seq![index] + rest,
            _ => rest,
        }
    }
}

/// Releasing a direct image undoes its acquire: it goes back to the producer, in the layout in which
/// it came.
pub proof fn direct_release_undoes_the_acquire(image: RawHandle, family: u32)
    ensures
        ({
            let acquire = direct_acquire_barrier(image, family);
            let release = direct_release_barrier(image, family);
            &&& acquire.source_family == DMA_BUF_EXTERNAL_QUEUE_FAMILY
            &&& release.source_family == acquire.destination_family
            &&& release.destination_family == acquire.source_family
            &&& release.old_layout == acquire.new_layout
            &&& release.new_layout == acquire.old_layout
        }),
        image_layout(
            direct_acquire_steps(image, family) + direct_release_steps(image, family),
            image,
            Some(LAYOUT_GENERAL),
        ) == Some(LAYOUT_GENERAL),
{
    reveal_with_fuel(image_layout, 3);
    let steps = direct_acquire_steps(image, family) + direct_release_steps(image, family);
    assert(steps.drop_first() =~= direct_release_steps(image, family));
    assert(steps.drop_first().drop_first() =~= Seq::empty());
}

/// A staged compute frame reads its source only while the renderer's queue family owns it, and the
/// same submission gives it back to the producer.
pub proof fn staged_compute_gives_its_source_back(
    plan: StagedAcquirePlan,
    family: u32,
    query: Option<RawHandle>,
)
    ensures
        buffer_owner(
            staged_acquire_steps(plan, family, query),
            plan.source_buffer,
            DMA_BUF_EXTERNAL_QUEUE_FAMILY,
            family,
        ) == Some(DMA_BUF_EXTERNAL_QUEUE_FAMILY),
{
    reveal_with_fuel(buffer_owner, 12);
}

/// A staged transfer reads its source only while the renderer's queue family owns it, and the same
/// submission gives it back to the producer.
pub proof fn staged_transfer_gives_its_source_back(
    plan: StagedTransferPlan,
    family: u32,
    query: Option<RawHandle>,
)
    requires
        is_planar(plan.output),
    ensures
        buffer_owner(
            transfer_acquire_steps(plan, family, query),
            plan.source_buffer,
            DMA_BUF_EXTERNAL_QUEUE_FAMILY,
            family,
        ) == Some(DMA_BUF_EXTERNAL_QUEUE_FAMILY),
{
    reveal_with_fuel(buffer_owner, 10);
}

/// The image is one of the output's.
pub open spec fn is_output_image(output: StagedSampledImages, image: RawHandle) -> bool {
    let (first, second) = staged_images(output);
    image == first || second == Some(image)
}

/// The images of the output differ.
pub open spec fn images_differ(output: StagedSampledImages) -> bool {
    output matches StagedSampledImages::YuvPlanes { luma, chroma } ==> luma != chroma
}

/// The layout that an output is in before a frame is staged into it: the one in which the renderer
/// sampled it, or any, where it has never had contents.
pub open spec fn is_layout_before(initialized: bool, layout: ImageLayout) -> bool {
    initialized ==> layout == LAYOUT_SHADER_READ_ONLY_OPTIMAL
}

/// A staged compute frame leaves every output image as the renderer samples it, which is also how
/// the next frame in the same output expects it.
pub proof fn staged_compute_leaves_outputs_to_sample(
    plan: StagedAcquirePlan,
    family: u32,
    query: Option<RawHandle>,
    image: RawHandle,
    layout: ImageLayout,
)
    requires
        is_output_image(plan.output, image),
        images_differ(plan.output),
        is_layout_before(plan.output_initialized, layout),
    ensures
        image_layout(staged_acquire_steps(plan, family, query), image, Some(layout)) == Some(
            LAYOUT_SHADER_READ_ONLY_OPTIMAL,
        ),
        is_layout_before(true, LAYOUT_SHADER_READ_ONLY_OPTIMAL),
{
    reveal_with_fuel(image_layout, 12);
}

/// A staged transfer writes every output image in the layout that copies need, and leaves it as the
/// renderer samples it, which is also how the next frame in the same output expects it.
pub proof fn staged_transfer_leaves_outputs_to_sample(
    plan: StagedTransferPlan,
    family: u32,
    query: Option<RawHandle>,
    image: RawHandle,
    layout: ImageLayout,
)
    requires
        is_planar(plan.output),
        is_output_image(plan.output, image),
        images_differ(plan.output),
        is_layout_before(plan.output_initialized, layout),
    ensures
        image_layout(transfer_acquire_steps(plan, family, query), image, Some(layout)) == Some(
            LAYOUT_SHADER_READ_ONLY_OPTIMAL,
        ),
{
    reveal_with_fuel(image_layout, 10);
}

/// From acquire to release, a staged frame that is timed takes each of its three timestamps once
/// and in order; a frame that is not timed takes none.
pub proof fn staged_frames_take_each_timestamp_once(
    compute: StagedAcquirePlan,
    transfer: StagedTransferPlan,
    family: u32,
    query: Option<RawHandle>,
)
    requires
        is_planar(transfer.output),
    ensures
        ({
            let release = later_timestamp(query, 2);
            &&& timestamps_taken(staged_acquire_steps(compute, family, query) + release)
                == frame_timestamps(query)
            &&& timestamps_taken(transfer_acquire_steps(transfer, family, query) + release)
                == frame_timestamps(query)
        }),
{
    lemma_compute_timestamps(compute, family, query);
    lemma_transfer_timestamps(transfer, family, query);
}

/// The timestamps of one staged frame.
pub open spec fn frame_timestamps(query: Option<RawHandle>) -> Seq<u32> {
    if query is Some {
        seq![0, 1, 2]
    } else {
        Seq::empty()
    }
}

#[verifier::spinoff_prover]
proof fn lemma_compute_timestamps(
    plan: StagedAcquirePlan,
    family: u32,
    query: Option<RawHandle>,
)
    ensures
        timestamps_taken(staged_acquire_steps(plan, family, query) + later_timestamp(query, 2))
            == frame_timestamps(query),
{
    reveal_with_fuel(timestamps_taken, 13);
    assert(timestamps_taken(staged_acquire_steps(plan, family, query) + later_timestamp(query, 2))
        =~= frame_timestamps(query));
}

#[verifier::spinoff_prover]
proof fn lemma_transfer_timestamps(
    plan: StagedTransferPlan,
    family: u32,
    query: Option<RawHandle>,
)
    requires
        is_planar(plan.output),
    ensures
        timestamps_taken(transfer_acquire_steps(plan, family, query) + later_timestamp(query, 2))
            == frame_timestamps(query),
{
    reveal_with_fuel(timestamps_taken, 13);
    assert(timestamps_taken(transfer_acquire_steps(plan, family, query) + later_timestamp(query, 2))
        =~= frame_timestamps(query));
}

/// The byte at which a copy reads the texel in column `x` of row `y`.
pub open spec fn texel_address(region: BufferImageCopy, texel_bytes: int, x: int, y: int) -> int {
    region.buffer_offset + (y * region.buffer_row_length + x) * texel_bytes
}

/// For every frame that is admitted for a transfer, the copies read each plane where the frame's
/// layout puts it.
pub proof fn transfers_read_the_planes(
    plan: StagedTransferPlan,
    layout: Nv12SharedObjectLayout,
    aspect: ImageAspectFlags,
    x: int,
    y: int,
)
    requires
        plan.planes == layout.planes,
        transfer_layout_verdict(plan.dimensions, layout) is Ok,
    ensures
        texel_address(luma_region(plan, aspect), 1, x, y) == layout.planes[0].offset + y
            * layout.planes[0].pitch + x,
        texel_address(chroma_region(plan, aspect), 2, x, y) == layout.planes[1].offset + y
            * layout.planes[1].pitch + 2 * x,
{
    let pitch = layout.planes[1].pitch as int;
    assert(pitch % 2 == 0);
    assert((y * (pitch / 2) + x) * 2 == y * pitch + 2 * x) by (nonlinear_arith)
        requires
            pitch % 2 == 0,
    ;
    let luma = layout.planes[0].pitch as int;
    assert((y * luma + x) * 1 == y * luma + x);
}

/// The copies of an admitted transfer read nothing behind the last byte of the frame: the padding of
/// the allocation is not copied.
pub proof fn transfers_leave_the_padding_alone(
    plan: StagedTransferPlan,
    layout: Nv12SharedObjectLayout,
    aspect: ImageAspectFlags,
    x: int,
    y: int,
)
    requires
        plan.planes == layout.planes,
        transfer_layout_verdict(plan.dimensions, layout) is Ok,
    ensures
        ({
            let luma = luma_region(plan, aspect);
            let chroma = chroma_region(plan, aspect);
            let span = frame_span(plan.dimensions, layout);
            &&& 0 <= x < luma.width && 0 <= y < luma.height ==> texel_address(luma, 1, x, y) + 1
                <= span
            &&& 0 <= x < chroma.width && 0 <= y < chroma.height ==> texel_address(chroma, 2, x, y)
                + 2 <= span
            &&& span <= layout.object_size
        }),
{
    transfers_read_the_planes(plan, layout, aspect, x, y);
    let luma_pitch = layout.planes[0].pitch as int;
    let chroma_pitch = layout.planes[1].pitch as int;
    let rows = plan.dimensions.1 as int;
    if 0 <= y < rows {
        assert(y * luma_pitch <= luma_pitch * (rows - 1)) by (nonlinear_arith)
            requires
                0 <= luma_pitch,
                0 <= y <= rows - 1,
        ;
    }
    if 0 <= y < rows / 2 {
        let half = rows / 2;
        assert(y * chroma_pitch <= chroma_pitch * (half - 1)) by (nonlinear_arith)
            requires
                0 <= chroma_pitch,
                0 <= y <= half - 1,
        ;
    }
}

} // verus!
