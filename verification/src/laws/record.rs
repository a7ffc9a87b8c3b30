//! What holds of recorded commands, whatever frame they are for.

use vstd::prelude::*;

use crate::vulkan::flags::RawHandle;
use crate::vulkan::image::{AcquirePlan, StagedAcquirePlan, StagedTransferPlan};
use crate::vulkan::record::{
    begin_command, end_command, nv12_multiplanar_transfer_regions, nv12_separate_transfer_regions,
    nv12_transfer_region, record_acquire, record_direct_acquire, record_direct_release,
    record_staged_acquire, record_staged_release, record_staged_transfer_acquire,
    staged_output_images, BufferBarrier, BufferImageCopy, CommandStep, ImageBarrier,
};
use crate::vulkan::resources::StagedSampledImages;

verus! {

/// The queue family that stands for everybody outside of Vulkan.
pub open spec fn outside() -> u32 {
    0xffff_fffe
}

/// An image that is sampled directly is taken over from outside, made readable for the fragment
/// shader, and given back as it was. Nothing else is recorded.
pub proof fn direct_images_are_borrowed(
    image: RawHandle,
    family: u32,
    acquire: Vec<CommandStep>,
    release: Vec<CommandStep>,
)
    requires
        call_ensures(record_direct_acquire, (image, family), acquire),
        call_ensures(record_direct_release, (image, family), release),
    ensures
        acquire@.len() == 1 && release@.len() == 1,
        match (acquire@[0], release@[0]) {
            (
                CommandStep::Barrier {
                    source_stage,
                    destination_stage,
                    buffer: None,
                    first_image: Some(taken),
                    second_image: None,
                },
                CommandStep::Barrier {
                    source_stage: last_stage,
                    destination_stage: end_stage,
                    buffer: None,
                    first_image: Some(given),
                    second_image: None,
                },
            ) => {
                &&& taken.image == image && given.image == image
                &&& taken.source_family == outside() && taken.destination_family == family
                &&& given.source_family == family && given.destination_family == outside()
                &&& taken.old_layout == given.new_layout && taken.new_layout == given.old_layout
                &&& taken.old_layout == 1 && taken.new_layout == 5
                &&& taken.source_access == 0 && taken.destination_access == 0x20
                &&& given.source_access == 0x8000 && given.destination_access == 0
                &&& source_stage == 0x1 && destination_stage == 0x80
                &&& last_stage == 0x1_0000 && end_stage == 0x2000
            },
            _ => false,
        },
{
}

/// The images of an output in order, luma before chroma.
pub proof fn outputs_name_luma_first(
    output: StagedSampledImages,
    images: (RawHandle, Option<RawHandle>),
)
    requires
        call_ensures(staged_output_images, (output,), images),
    ensures
        match output {
            StagedSampledImages::Rgba { image } => images.0 == image && images.1 is None,
            StagedSampledImages::Bgra { image } => images.0 == image && images.1 is None,
            StagedSampledImages::Nv12 { image } => images.0 == image && images.1 is None,
            StagedSampledImages::YuvPlanes { luma, chroma } => images.0 == luma && images.1 == Some(
                chroma,
            ),
        },
{
}

/// The barrier takes the whole source over from outside, for reading alone.
pub open spec fn takes_source(
    barrier: BufferBarrier,
    buffer: RawHandle,
    size: u64,
    family: u32,
    read: u32,
) -> bool {
    &&& barrier.buffer == buffer && barrier.size == size
    &&& barrier.source_family == outside() && barrier.destination_family == family
    &&& barrier.source_access == 0 && barrier.destination_access == read
}

/// The barrier gives the whole source back, after reading alone.
pub open spec fn gives_source(
    barrier: BufferBarrier,
    buffer: RawHandle,
    size: u64,
    family: u32,
    read: u32,
) -> bool {
    &&& barrier.buffer == buffer && barrier.size == size
    &&& barrier.source_family == family && barrier.destination_family == outside()
    &&& barrier.source_access == read && barrier.destination_access == 0
}

/// The barrier makes an output writable: after the renderer's last look, where there was one, and
/// without keeping anything where it has never had contents.
pub open spec fn opens_output(
    barrier: ImageBarrier,
    image: RawHandle,
    initialized: bool,
    write: u32,
    layout: i32,
) -> bool {
    &&& barrier.image == image
    &&& barrier.source_family == 0xffff_ffff && barrier.destination_family == 0xffff_ffff
    &&& barrier.destination_access == write && barrier.new_layout == layout
    &&& initialized ==> barrier.old_layout == 5 && barrier.source_access == 0x20
    &&& !initialized ==> barrier.old_layout == 0 && barrier.source_access == 0
}

/// The barrier makes what was written into an output readable for the renderer.
pub open spec fn shows_output(
    barrier: ImageBarrier,
    image: RawHandle,
    write: u32,
    layout: i32,
) -> bool {
    &&& barrier.image == image
    &&& barrier.source_family == 0xffff_ffff && barrier.destination_family == 0xffff_ffff
    &&& barrier.source_access == write && barrier.old_layout == layout
    &&& barrier.destination_access == 0x20 && barrier.new_layout == 5
}

/// The first barrier of a staged frame: the source is taken over and the outputs are opened, before
/// the stage that copies.
pub open spec fn is_opening(
    step: CommandStep,
    source: (RawHandle, u64),
    images: (RawHandle, Option<RawHandle>),
    initialized: bool,
    family: u32,
    stage: u32,
    read: u32,
    write: u32,
    layout: i32,
) -> bool {
    match step {
        CommandStep::Barrier {
            source_stage,
            destination_stage,
            buffer: Some(buffer),
            first_image: Some(first),
            second_image,
        } => {
            &&& source_stage == if initialized {
                0x80u32
            } else {
                0x1
            }
            &&& destination_stage == stage
            &&& takes_source(buffer, source.0, source.1, family, read)
            &&& opens_output(first, images.0, initialized, write, layout)
            &&& second_image is Some <==> images.1 is Some
            &&& second_image matches Some(second) ==> opens_output(
                second,
                images.1.unwrap(),
                initialized,
                write,
                layout,
            )
        },
        _ => false,
    }
}

/// The barrier behind the copy: the outputs are shown to the fragment shader.
pub open spec fn is_showing(
    step: CommandStep,
    images: (RawHandle, Option<RawHandle>),
    stage: u32,
    write: u32,
    layout: i32,
) -> bool {
    match step {
        CommandStep::Barrier {
            source_stage,
            destination_stage,
            buffer: None,
            first_image: Some(first),
            second_image,
        } => {
            &&& source_stage == stage && destination_stage == 0x80
            &&& shows_output(first, images.0, write, layout)
            &&& second_image is Some <==> images.1 is Some
            &&& second_image matches Some(second) ==> shows_output(
                second,
                images.1.unwrap(),
                write,
                layout,
            )
        },
        _ => false,
    }
}

/// The last barrier: the source is given back.
pub open spec fn is_returning(
    step: CommandStep,
    source: (RawHandle, u64),
    family: u32,
    stage: u32,
    read: u32,
) -> bool {
    match step {
        CommandStep::Barrier {
            source_stage,
            destination_stage,
            buffer: Some(buffer),
            first_image: None,
            second_image: None,
        } => {
            &&& source_stage == stage && destination_stage == 0x2000
            &&& gives_source(buffer, source.0, source.1, family, read)
        },
        _ => false,
    }
}

/// A frame that a shader stages: the source is taken and the outputs opened, the shader runs with
/// its own descriptors and constants over all its groups, the outputs are shown and the source is
/// given back. Between those nothing else is recorded.
pub proof fn shaders_run_between_the_barriers(
    plan: StagedAcquirePlan,
    family: u32,
    steps: Vec<CommandStep>,
    images: (RawHandle, Option<RawHandle>),
)
    requires
        call_ensures(record_staged_acquire, (plan, family, None), steps),
        call_ensures(staged_output_images, (plan.output,), images),
    ensures
        steps@.len() == 7,
        is_opening(
            steps@[0],
            (plan.source_buffer, plan.source_size),
            images,
            plan.output_initialized,
            family,
            0x800,
            0x20,
            0x40,
            1,
        ),
        steps@[1] == (CommandStep::BindComputePipeline { pipeline: plan.pipeline }),
        steps@[2] == (CommandStep::BindDescriptorSet {
            layout: plan.pipeline_layout,
            set: plan.descriptor_set,
        }),
        steps@[3] == (CommandStep::PushConstants {
            layout: plan.pipeline_layout,
            constants: plan.push_constants,
        }),
        steps@[4] == (CommandStep::Dispatch { groups: plan.dispatch }),
        is_showing(steps@[5], images, 0x800, 0x40, 1),
        is_returning(
            steps@[6],
            (plan.source_buffer, plan.source_size),
            family,
            0x800,
            0x20,
        ),
{
}

/// A frame that is copied: the source is taken and the outputs opened, every plane is copied once
/// into its own image, the outputs are shown and the source is given back. Only planar outputs can
/// be copied into.
pub proof fn copies_run_between_the_barriers(
    plan: StagedTransferPlan,
    family: u32,
    result: Result<Vec<CommandStep>, String>,
    images: (RawHandle, Option<RawHandle>),
    separate: [BufferImageCopy; 2],
    together: [BufferImageCopy; 2],
)
    requires
        call_ensures(record_staged_transfer_acquire, (plan, family, None), result),
        call_ensures(staged_output_images, (plan.output,), images),
        call_ensures(nv12_separate_transfer_regions, (plan,), separate),
        call_ensures(nv12_multiplanar_transfer_regions, (plan,), together),
    ensures
        result is Ok <==> plan.output is Nv12 || plan.output is YuvPlanes,
        result matches Ok(steps) ==> {
            let last = steps@.len() - 1;
            let source = (plan.source_buffer, plan.source_size);
            &&& is_opening(
                steps@[0],
                source,
                images,
                plan.output_initialized,
                family,
                0x1000,
                0x800,
                0x1000,
                7,
            )
            &&& is_showing(steps@[last - 1], images, 0x1000, 0x1000, 7)
            &&& is_returning(steps@[last], source, family, 0x1000, 0x800)
            &&& plan.output matches StagedSampledImages::Nv12 { image } ==> last == 3 && steps@[1]
                == (CommandStep::CopyBufferToImage {
                buffer: plan.source_buffer,
                image,
                layout: 7,
                region: together[0],
                second_region: Some(together[1]),
            })
            &&& plan.output matches StagedSampledImages::YuvPlanes { luma, chroma } ==> last == 4
                && steps@[1] == (CommandStep::CopyBufferToImage {
                buffer: plan.source_buffer,
                image: luma,
                layout: 7,
                region: separate[0],
                second_region: None,
            }) && steps@[2] == (CommandStep::CopyBufferToImage {
                buffer: plan.source_buffer,
                image: chroma,
                layout: 7,
                region: separate[1],
                second_region: None,
            })
        },
{
    assert(separate@[0] == separate[0] && separate@[1] == separate[1]);
    assert(together@[0] == together[0] && together@[1] == together[1]);
}

/// Timing adds timestamps and changes nothing else: three are reset and the first is taken before
/// everything, the second is taken after everything, and the third is taken by the release.
pub proof fn timing_only_adds_timestamps(
    compute: StagedAcquirePlan,
    transfer: StagedTransferPlan,
    family: u32,
    pool: RawHandle,
    computed: Vec<CommandStep>,
    timed_computed: Vec<CommandStep>,
    copied: Result<Vec<CommandStep>, String>,
    timed_copied: Result<Vec<CommandStep>, String>,
    released: Vec<CommandStep>,
    timed_released: Vec<CommandStep>,
)
    requires
        call_ensures(record_staged_acquire, (compute, family, None), computed),
        call_ensures(record_staged_acquire, (compute, family, Some(pool)), timed_computed),
        call_ensures(record_staged_transfer_acquire, (transfer, family, None), copied),
        call_ensures(record_staged_transfer_acquire, (transfer, family, Some(pool)), timed_copied),
        call_ensures(record_staged_release, (None,), released),
        call_ensures(record_staged_release, (Some(pool),), timed_released),
    ensures
        is_timed(timed_computed@, computed@, pool),
        copied is Ok <==> timed_copied is Ok,
        copied is Ok ==> is_timed(timed_copied->Ok_0@, copied->Ok_0@, pool),
        released@.len() == 0,
        timed_released@ =~= seq![
            CommandStep::WriteTimestamp { stage: 0x2000, pool, index: 2 },
        ],
{
}

/// The steps are the others with the two timestamps of an acquire around them.
pub open spec fn is_timed(
    timed: Seq<CommandStep>,
    steps: Seq<CommandStep>,
    pool: RawHandle,
) -> bool {
    &&& timed.len() == steps.len() + 3
    &&& timed[0] == (CommandStep::ResetTimestamps { pool, first: 0, count: 3 })
    &&& timed[1] == (CommandStep::WriteTimestamp { stage: 0x1, pool, index: 0 })
    &&& timed.subrange(2, timed.len() - 1) =~= steps
    &&& timed.last() == (CommandStep::WriteTimestamp { stage: 0x2000, pool, index: 1 })
}

/// What is recorded for an acquire is what its plan asks for; a direct image is never timed.
pub proof fn acquires_record_their_plan(
    plan: AcquirePlan,
    family: u32,
    query: Option<RawHandle>,
    result: Result<Vec<CommandStep>, String>,
    image: RawHandle,
    direct: Vec<CommandStep>,
    compute: StagedAcquirePlan,
    computed: Vec<CommandStep>,
    transfer: StagedTransferPlan,
    copied: Result<Vec<CommandStep>, String>,
)
    requires
        call_ensures(record_acquire, (plan, family, query), result),
        call_ensures(record_direct_acquire, (image, family), direct),
        call_ensures(record_staged_acquire, (compute, family, query), computed),
        call_ensures(record_staged_transfer_acquire, (transfer, family, query), copied),
    ensures
        plan == (AcquirePlan::DirectImage { image }) ==> result is Ok && result->Ok_0@ == direct@,
        plan == AcquirePlan::StagedCompute(compute) ==> result is Ok && result->Ok_0@ == computed@,
        plan == AcquirePlan::StagedTransfer(transfer) ==> (result is Ok <==> copied is Ok) && (
        copied is Ok ==> result->Ok_0@ == copied->Ok_0@),
{
}

/// Recording begins and ends only where the device lets it.
pub proof fn recording_needs_the_device(
    code: Result<(), i32>,
    begun: Result<(), String>,
    ended: Result<(), String>,
)
    requires
        call_ensures(begin_command, (code,), begun),
        call_ensures(end_command, (code,), ended),
    ensures
        begun is Ok <==> code is Ok,
        ended is Ok <==> code is Ok,
{
}

/// A region is made of what it is given.
pub proof fn regions_are_what_they_are_given(
    aspect: u32,
    offset: u64,
    row_length: u32,
    width: u32,
    height: u32,
    region: BufferImageCopy,
)
    requires
        call_ensures(nv12_transfer_region, (aspect, offset, row_length, width, height), region),
    ensures
        region.aspect == aspect && region.buffer_offset == offset && region.buffer_row_length
            == row_length && region.width == width && region.height == height,
{
}

} // verus!
