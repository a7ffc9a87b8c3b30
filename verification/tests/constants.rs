use ash::vk;
use ash::vk::FormatFeatureFlags as Flags;
use video_interop::vulkan::flags;
use video_interop::vulkan::result;

#[test]
fn format_features_have_vulkan_values() {
    for (flag, expected) in [
        (flags::FORMAT_FEATURE_SAMPLED_IMAGE, Flags::SAMPLED_IMAGE),
        (flags::FORMAT_FEATURE_STORAGE_IMAGE, Flags::STORAGE_IMAGE),
        (flags::FORMAT_FEATURE_UNIFORM_TEXEL_BUFFER, Flags::UNIFORM_TEXEL_BUFFER),
        (flags::FORMAT_FEATURE_COLOR_ATTACHMENT, Flags::COLOR_ATTACHMENT),
        (
            flags::FORMAT_FEATURE_SAMPLED_IMAGE_FILTER_LINEAR,
            Flags::SAMPLED_IMAGE_FILTER_LINEAR,
        ),
        (flags::FORMAT_FEATURE_TRANSFER_SRC, Flags::TRANSFER_SRC),
        (flags::FORMAT_FEATURE_TRANSFER_DST, Flags::TRANSFER_DST),
        (flags::FORMAT_FEATURE_MIDPOINT_CHROMA_SAMPLES, Flags::MIDPOINT_CHROMA_SAMPLES),
        (
            flags::FORMAT_FEATURE_YCBCR_LINEAR_FILTER,
            Flags::SAMPLED_IMAGE_YCBCR_CONVERSION_LINEAR_FILTER,
        ),
        (flags::FORMAT_FEATURE_COSITED_CHROMA_SAMPLES, Flags::COSITED_CHROMA_SAMPLES),
    ] {
        assert_eq!(flag, expected.as_raw());
    }
}

#[test]
fn usages_and_handles_have_vulkan_values() {
    assert_eq!(flags::IMAGE_USAGE_TRANSFER_SRC, vk::ImageUsageFlags::TRANSFER_SRC.as_raw());
    assert_eq!(flags::IMAGE_USAGE_TRANSFER_DST, vk::ImageUsageFlags::TRANSFER_DST.as_raw());
    assert_eq!(flags::IMAGE_USAGE_SAMPLED, vk::ImageUsageFlags::SAMPLED.as_raw());
    assert_eq!(flags::IMAGE_USAGE_STORAGE, vk::ImageUsageFlags::STORAGE.as_raw());
    assert_eq!(
        flags::IMAGE_USAGE_COLOR_ATTACHMENT,
        vk::ImageUsageFlags::COLOR_ATTACHMENT.as_raw()
    );
    assert_eq!(
        flags::IMAGE_CREATE_MUTABLE_FORMAT,
        vk::ImageCreateFlags::MUTABLE_FORMAT.as_raw()
    );
    assert_eq!(flags::IMAGE_ASPECT_COLOR, vk::ImageAspectFlags::COLOR.as_raw());
    assert_eq!(flags::IMAGE_ASPECT_PLANE_0, vk::ImageAspectFlags::PLANE_0.as_raw());
    assert_eq!(flags::IMAGE_ASPECT_PLANE_1, vk::ImageAspectFlags::PLANE_1.as_raw());
    assert_eq!(flags::BUFFER_USAGE_TRANSFER_SRC, vk::BufferUsageFlags::TRANSFER_SRC.as_raw());
    assert_eq!(
        flags::BUFFER_USAGE_UNIFORM_TEXEL_BUFFER,
        vk::BufferUsageFlags::UNIFORM_TEXEL_BUFFER.as_raw()
    );
    assert_eq!(
        flags::EXTERNAL_MEMORY_FEATURE_IMPORTABLE,
        vk::ExternalMemoryFeatureFlags::IMPORTABLE.as_raw()
    );
    assert_eq!(
        flags::EXTERNAL_MEMORY_HANDLE_TYPE_DMA_BUF,
        vk::ExternalMemoryHandleTypeFlags::DMA_BUF_EXT.as_raw()
    );
    assert_eq!(
        flags::EXTERNAL_SEMAPHORE_FEATURE_IMPORTABLE,
        vk::ExternalSemaphoreFeatureFlags::IMPORTABLE.as_raw()
    );
    assert_eq!(
        flags::EXTERNAL_SEMAPHORE_HANDLE_TYPE_SYNC_FD,
        vk::ExternalSemaphoreHandleTypeFlags::SYNC_FD.as_raw()
    );
    assert_eq!(flags::QUEUE_GRAPHICS, vk::QueueFlags::GRAPHICS.as_raw());
    assert_eq!(flags::QUEUE_COMPUTE, vk::QueueFlags::COMPUTE.as_raw());
    assert_eq!(flags::QUEUE_TRANSFER, vk::QueueFlags::TRANSFER.as_raw());
}

#[test]
fn barriers_have_vulkan_values() {
    assert_eq!(flags::ACCESS_SHADER_READ, vk::AccessFlags::SHADER_READ.as_raw());
    assert_eq!(flags::ACCESS_SHADER_WRITE, vk::AccessFlags::SHADER_WRITE.as_raw());
    assert_eq!(flags::ACCESS_TRANSFER_READ, vk::AccessFlags::TRANSFER_READ.as_raw());
    assert_eq!(flags::ACCESS_TRANSFER_WRITE, vk::AccessFlags::TRANSFER_WRITE.as_raw());
    assert_eq!(flags::ACCESS_MEMORY_READ, vk::AccessFlags::MEMORY_READ.as_raw());
    assert_eq!(flags::STAGE_TOP_OF_PIPE, vk::PipelineStageFlags::TOP_OF_PIPE.as_raw());
    assert_eq!(flags::STAGE_FRAGMENT_SHADER, vk::PipelineStageFlags::FRAGMENT_SHADER.as_raw());
    assert_eq!(flags::STAGE_COMPUTE_SHADER, vk::PipelineStageFlags::COMPUTE_SHADER.as_raw());
    assert_eq!(flags::STAGE_TRANSFER, vk::PipelineStageFlags::TRANSFER.as_raw());
    assert_eq!(flags::STAGE_BOTTOM_OF_PIPE, vk::PipelineStageFlags::BOTTOM_OF_PIPE.as_raw());
    assert_eq!(flags::STAGE_ALL_COMMANDS, vk::PipelineStageFlags::ALL_COMMANDS.as_raw());
    assert_eq!(flags::LAYOUT_UNDEFINED, vk::ImageLayout::UNDEFINED.as_raw());
    assert_eq!(flags::LAYOUT_GENERAL, vk::ImageLayout::GENERAL.as_raw());
    assert_eq!(
        flags::LAYOUT_SHADER_READ_ONLY_OPTIMAL,
        vk::ImageLayout::SHADER_READ_ONLY_OPTIMAL.as_raw()
    );
    assert_eq!(
        flags::LAYOUT_TRANSFER_DST_OPTIMAL,
        vk::ImageLayout::TRANSFER_DST_OPTIMAL.as_raw()
    );
    assert_eq!(flags::TILING_OPTIMAL, vk::ImageTiling::OPTIMAL.as_raw());
    assert_eq!(
        flags::TILING_DRM_FORMAT_MODIFIER,
        vk::ImageTiling::DRM_FORMAT_MODIFIER_EXT.as_raw()
    );
    assert_eq!(
        flags::DESCRIPTOR_TYPE_STORAGE_IMAGE,
        vk::DescriptorType::STORAGE_IMAGE.as_raw()
    );
    assert_eq!(
        flags::DESCRIPTOR_TYPE_UNIFORM_TEXEL_BUFFER,
        vk::DescriptorType::UNIFORM_TEXEL_BUFFER.as_raw()
    );
    assert_eq!(flags::QUEUE_FAMILY_IGNORED, vk::QUEUE_FAMILY_IGNORED);
}

#[test]
fn formats_have_vulkan_values() {
    assert_eq!(flags::FORMAT_R8_UNORM, vk::Format::R8_UNORM.as_raw());
    assert_eq!(flags::FORMAT_R8G8_UNORM, vk::Format::R8G8_UNORM.as_raw());
    assert_eq!(flags::FORMAT_R8G8B8A8_UNORM, vk::Format::R8G8B8A8_UNORM.as_raw());
    assert_eq!(flags::FORMAT_B8G8R8A8_UNORM, vk::Format::B8G8R8A8_UNORM.as_raw());
    assert_eq!(flags::FORMAT_R32_UINT, vk::Format::R32_UINT.as_raw());
    assert_eq!(
        flags::FORMAT_G8_B8R8_2PLANE_420_UNORM,
        vk::Format::G8_B8R8_2PLANE_420_UNORM.as_raw()
    );
}

#[test]
fn result_codes_have_vulkan_names_and_values() {
    assert_eq!(result::SUCCESS, vk::Result::SUCCESS.as_raw());
    assert_eq!(result::NOT_READY, vk::Result::NOT_READY.as_raw());
    assert_eq!(
        result::ERROR_OUT_OF_HOST_MEMORY,
        vk::Result::ERROR_OUT_OF_HOST_MEMORY.as_raw()
    );
    assert_eq!(
        result::ERROR_OUT_OF_DEVICE_MEMORY,
        vk::Result::ERROR_OUT_OF_DEVICE_MEMORY.as_raw()
    );
    assert_eq!(result::ERROR_DEVICE_LOST, vk::Result::ERROR_DEVICE_LOST.as_raw());
    assert_eq!(
        result::failure("it failed: ", vk::Result::ERROR_DEVICE_LOST.as_raw()),
        "it failed: ERROR_DEVICE_LOST"
    );
    assert_eq!(result::failure("it failed: ", 12_345), "it failed: 12345");
}

#[test]
fn flags_are_subsets_bit_by_bit() {
    assert!(flags::contains(0b1110, 0b0110));
    assert!(!flags::contains(0b1110, 0b0001));
    assert!(flags::contains(0, 0));
    assert!(flags::intersects(0b1110, 0b0011));
    assert!(!flags::intersects(0b1110, 0b0001));
}
