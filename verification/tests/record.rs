use video_interop::vulkan::flags::{
    ACCESS_MEMORY_READ, ACCESS_NONE, ACCESS_SHADER_READ, ACCESS_SHADER_WRITE,
    ACCESS_TRANSFER_READ, ACCESS_TRANSFER_WRITE, DMA_BUF_EXTERNAL_QUEUE_FAMILY,
    IMAGE_ASPECT_COLOR, IMAGE_ASPECT_PLANE_0, IMAGE_ASPECT_PLANE_1, LAYOUT_GENERAL,
    LAYOUT_SHADER_READ_ONLY_OPTIMAL, LAYOUT_TRANSFER_DST_OPTIMAL, LAYOUT_UNDEFINED,
    QUEUE_FAMILY_IGNORED, STAGE_ALL_COMMANDS, STAGE_BOTTOM_OF_PIPE, STAGE_COMPUTE_SHADER,
    STAGE_FRAGMENT_SHADER, STAGE_TOP_OF_PIPE, STAGE_TRANSFER,
};
use video_interop::vulkan::image::PackedPushConstants;
use video_interop::vulkan::layout::check_packed_layout;
use video_interop::vulkan::record::{
    record_acquire, record_direct_acquire, record_direct_release, record_staged_acquire,
    record_staged_release, record_staged_transfer_acquire, staged_output_images, BufferBarrier,
    BufferImageCopy, CommandStep, ImageBarrier,
};
use video_interop::vulkan::{
    nv12_compute_source_span, nv12_transfer_source_span, AcquirePlan, ImportedPlane,
    Nv12SharedObjectLayout, StagedAcquirePlan, StagedPushConstants, StagedSampledImages,
    StagedTransferPlan,
};

const FAMILY: u32 = 3;

fn image_barrier(
    source_access: u32,
    destination_access: u32,
    old_layout: i32,
    new_layout: i32,
    image: u64,
) -> ImageBarrier {
    ImageBarrier {
        source_access,
        destination_access,
        old_layout,
        new_layout,
        source_family: QUEUE_FAMILY_IGNORED,
        destination_family: QUEUE_FAMILY_IGNORED,
        image,
    }
}

fn images_only(
    source_stage: u32,
    destination_stage: u32,
    first: ImageBarrier,
    second: Option<ImageBarrier>,
) -> CommandStep {
    CommandStep::Barrier {
        source_stage,
        destination_stage,
        buffer: None,
        first_image: Some(first),
        second_image: second,
    }
}

fn source_back(stage: u32, access: u32, size: u64) -> CommandStep {
    CommandStep::Barrier {
        source_stage: stage,
        destination_stage: STAGE_BOTTOM_OF_PIPE,
        buffer: Some(BufferBarrier {
            source_access: access,
            destination_access: ACCESS_NONE,
            source_family: FAMILY,
            destination_family: DMA_BUF_EXTERNAL_QUEUE_FAMILY,
            buffer: 5,
            size,
        }),
        first_image: None,
        second_image: None,
    }
}

#[test]
fn direct_images_go_to_the_renderer_and_back() {
    assert_eq!(
        record_direct_acquire(9, FAMILY),
        vec![images_only(
            STAGE_TOP_OF_PIPE,
            STAGE_FRAGMENT_SHADER,
            ImageBarrier {
                source_family: DMA_BUF_EXTERNAL_QUEUE_FAMILY,
                destination_family: FAMILY,
                ..image_barrier(
                    ACCESS_NONE,
                    ACCESS_SHADER_READ,
                    LAYOUT_GENERAL,
                    LAYOUT_SHADER_READ_ONLY_OPTIMAL,
                    9,
                )
            },
            None,
        )]
    );
    assert_eq!(
        record_direct_release(9, FAMILY),
        vec![images_only(
            STAGE_ALL_COMMANDS,
            STAGE_BOTTOM_OF_PIPE,
            ImageBarrier {
                source_family: FAMILY,
                destination_family: DMA_BUF_EXTERNAL_QUEUE_FAMILY,
                ..image_barrier(
                    ACCESS_MEMORY_READ,
                    ACCESS_NONE,
                    LAYOUT_SHADER_READ_ONLY_OPTIMAL,
                    LAYOUT_GENERAL,
                    9,
                )
            },
            None,
        )]
    );
}

fn compute(output_initialized: bool) -> StagedAcquirePlan {
    StagedAcquirePlan {
        source_buffer: 5,
        source_size: 8192,
        output: StagedSampledImages::Bgra { image: 6 },
        output_initialized,
        descriptor_set: 7,
        pipeline: 8,
        pipeline_layout: 9,
        push_constants: StagedPushConstants::Packed(PackedPushConstants {
            width: 64,
            height: 32,
            offset: 0,
            pitch: 256,
            source_format: 1,
        }),
        dispatch: (4, 2),
    }
}

fn compute_steps(old_layout: i32, old_access: u32, source_stage: u32) -> Vec<CommandStep> {
    vec![
        CommandStep::Barrier {
            source_stage,
            destination_stage: STAGE_COMPUTE_SHADER,
            buffer: Some(BufferBarrier {
                source_access: ACCESS_NONE,
                destination_access: ACCESS_SHADER_READ,
                source_family: DMA_BUF_EXTERNAL_QUEUE_FAMILY,
                destination_family: FAMILY,
                buffer: 5,
                size: 8192,
            }),
            first_image: Some(image_barrier(
                old_access,
                ACCESS_SHADER_WRITE,
                old_layout,
                LAYOUT_GENERAL,
                6,
            )),
            second_image: None,
        },
        CommandStep::BindComputePipeline { pipeline: 8 },
        CommandStep::BindDescriptorSet { layout: 9, set: 7 },
        CommandStep::PushConstants { layout: 9, constants: compute(false).push_constants },
        CommandStep::Dispatch { groups: (4, 2) },
        images_only(
            STAGE_COMPUTE_SHADER,
            STAGE_FRAGMENT_SHADER,
            image_barrier(
                ACCESS_SHADER_WRITE,
                ACCESS_SHADER_READ,
                LAYOUT_GENERAL,
                LAYOUT_SHADER_READ_ONLY_OPTIMAL,
                6,
            ),
            None,
        ),
        source_back(STAGE_COMPUTE_SHADER, ACCESS_SHADER_READ, 8192),
    ]
}

#[test]
fn computed_frames_give_their_source_back() {
    assert_eq!(
        record_staged_acquire(compute(false), FAMILY, None),
        compute_steps(LAYOUT_UNDEFINED, ACCESS_NONE, STAGE_TOP_OF_PIPE)
    );
    assert_eq!(
        record_staged_acquire(compute(true), FAMILY, None),
        compute_steps(
            LAYOUT_SHADER_READ_ONLY_OPTIMAL,
            ACCESS_SHADER_READ,
            STAGE_FRAGMENT_SHADER,
        )
    );
}

#[test]
fn timed_frames_write_each_timestamp_once() {
    let steps = record_staged_acquire(compute(false), FAMILY, Some(4));
    assert_eq!(steps[0], CommandStep::ResetTimestamps { pool: 4, first: 0, count: 3 });
    assert_eq!(
        steps[1],
        CommandStep::WriteTimestamp { stage: STAGE_TOP_OF_PIPE, pool: 4, index: 0 }
    );
    assert_eq!(
        steps.last(),
        Some(&CommandStep::WriteTimestamp { stage: STAGE_BOTTOM_OF_PIPE, pool: 4, index: 1 })
    );
    assert_eq!(steps.len(), 10);
    assert_eq!(
        record_staged_release(Some(4)),
        vec![CommandStep::WriteTimestamp { stage: STAGE_BOTTOM_OF_PIPE, pool: 4, index: 2 }]
    );
    assert!(record_staged_release(None).is_empty());
}

fn transfer(output: StagedSampledImages) -> StagedTransferPlan {
    StagedTransferPlan {
        source_buffer: 5,
        source_size: 24,
        output,
        output_initialized: false,
        dimensions: (4, 4),
        planes: [
            ImportedPlane { offset: 0, pitch: 4 },
            ImportedPlane { offset: 16, pitch: 4 },
        ],
    }
}

fn region(offset: u64, row: u32, aspect: u32, width: u32, height: u32) -> BufferImageCopy {
    BufferImageCopy { buffer_offset: offset, buffer_row_length: row, aspect, width, height }
}

#[test]
fn transferred_frames_are_copied_plane_for_plane() {
    let planes = StagedSampledImages::YuvPlanes { luma: 6, chroma: 7 };
    let steps = record_staged_transfer_acquire(transfer(planes), FAMILY, None).unwrap();
    assert_eq!(steps.len(), 5);
    assert_eq!(
        steps[0],
        CommandStep::Barrier {
            source_stage: STAGE_TOP_OF_PIPE,
            destination_stage: STAGE_TRANSFER,
            buffer: Some(BufferBarrier {
                source_access: ACCESS_NONE,
                destination_access: ACCESS_TRANSFER_READ,
                source_family: DMA_BUF_EXTERNAL_QUEUE_FAMILY,
                destination_family: FAMILY,
                buffer: 5,
                size: 24,
            }),
            first_image: Some(image_barrier(
                ACCESS_NONE,
                ACCESS_TRANSFER_WRITE,
                LAYOUT_UNDEFINED,
                LAYOUT_TRANSFER_DST_OPTIMAL,
                6,
            )),
            second_image: Some(image_barrier(
                ACCESS_NONE,
                ACCESS_TRANSFER_WRITE,
                LAYOUT_UNDEFINED,
                LAYOUT_TRANSFER_DST_OPTIMAL,
                7,
            )),
        }
    );
    assert_eq!(
        steps[1],
        CommandStep::CopyBufferToImage {
            buffer: 5,
            image: 6,
            layout: LAYOUT_TRANSFER_DST_OPTIMAL,
            region: region(0, 4, IMAGE_ASPECT_COLOR, 4, 4),
            second_region: None,
        }
    );
    assert_eq!(
        steps[2],
        CommandStep::CopyBufferToImage {
            buffer: 5,
            image: 7,
            layout: LAYOUT_TRANSFER_DST_OPTIMAL,
            region: region(16, 2, IMAGE_ASPECT_COLOR, 2, 2),
            second_region: None,
        }
    );
    assert_eq!(steps[4], source_back(STAGE_TRANSFER, ACCESS_TRANSFER_READ, 24));

    let one = StagedSampledImages::Nv12 { image: 6 };
    let steps = record_acquire(AcquirePlan::StagedTransfer(transfer(one)), FAMILY, None).unwrap();
    assert_eq!(
        steps[1],
        CommandStep::CopyBufferToImage {
            buffer: 5,
            image: 6,
            layout: LAYOUT_TRANSFER_DST_OPTIMAL,
            region: region(0, 4, IMAGE_ASPECT_PLANE_0, 4, 4),
            second_region: Some(region(16, 2, IMAGE_ASPECT_PLANE_1, 2, 2)),
        }
    );
    assert_eq!(steps.len(), 4);
}

#[test]
fn transfers_need_planes() {
    let rgba = StagedSampledImages::Rgba { image: 6 };
    assert_eq!(
        record_staged_transfer_acquire(transfer(rgba), FAMILY, None).unwrap_err(),
        "Vulkan NV12 transfer has a non-planar output"
    );
    assert_eq!(staged_output_images(rgba), (6, None));
}

#[test]
fn spans_end_with_the_last_byte_of_the_last_row() {
    let layout = Nv12SharedObjectLayout {
        modifier: 0,
        object_size: 4096,
        planes: [
            ImportedPlane { offset: 0, pitch: 80 },
            ImportedPlane { offset: 2560, pitch: 80 },
        ],
    };
    assert_eq!(nv12_transfer_source_span((64, 32), layout).unwrap(), 2560 + 80 * 15 + 64);
    assert_eq!(nv12_compute_source_span((64, 32), layout).unwrap(), 3824);
    let plane = ImportedPlane { offset: 3, pitch: 300 };
    let span = 3 + 300 * 31 + 256;
    assert!(check_packed_layout((64, 32), span, plane).is_ok());
    assert!(check_packed_layout((64, 32), span - 1, plane).is_err());
}
