//! The device objects that imports are made of, and what is left to destroy of them.

use vstd::prelude::*;

use crate::vulkan::flags::RawHandle;
use crate::vulkan::types::Nv12ComputeOutput;

verus! {

/// Something that has to be destroyed, freed or closed once.
#[derive(Clone, Copy, Debug, PartialEq, Eq, Structural)]
pub enum DeviceObject {
    Image(RawHandle),
    ImageView(RawHandle),
    Buffer(RawHandle),
    BufferView(RawHandle),
    Memory(RawHandle),
    DescriptorSetLayout(RawHandle),
    DescriptorPool(RawHandle),
    PipelineLayout(RawHandle),
    ShaderModule(RawHandle),
    Pipeline(RawHandle),
    CommandPool(RawHandle),
    Fence(RawHandle),
    Semaphore(RawHandle),
    QueryPool(RawHandle),
    /// A file descriptor that Vulkan has not taken.
    Descriptor(i32),
}

/// An image with its memory.
#[derive(Clone, Copy, Debug, PartialEq, Eq, Structural)]
pub struct ImageAllocation {
    pub image: RawHandle,
    pub memory: RawHandle,
}

impl ImageAllocation {
    /// What is destroyed with the image, in order.
    pub open spec fn objects(self) -> Seq<DeviceObject> {
        seq![DeviceObject::Image(self.image), DeviceObject::Memory(self.memory)]
    }

    /// What to destroy, in order.
    pub fn teardown(self) -> (objects: Vec<DeviceObject>)
        ensures
            objects@ == self.objects(),
    {
        let mut objects: Vec<DeviceObject> = Vec::new();
        self.push_teardown(&mut objects);
        objects
    }

    pub(crate) fn push_teardown(self, objects: &mut Vec<DeviceObject>)
        ensures
            final(objects)@ == old(objects)@ + self.objects(),
    {
        objects.push(DeviceObject::Image(self.image));
        objects.push(DeviceObject::Memory(self.memory));
        assert(objects@ =~= old(objects)@ + self.objects());
    }
}

/// A buffer with its memory and size.
#[derive(Clone, Copy, Debug, PartialEq, Eq, Structural)]
pub struct BufferAllocation {
    pub buffer: RawHandle,
    pub memory: RawHandle,
    pub size: u64,
}

impl BufferAllocation {
    /// What is destroyed with the buffer, in order.
    pub open spec fn objects(self) -> Seq<DeviceObject> {
        seq![DeviceObject::Buffer(self.buffer), DeviceObject::Memory(self.memory)]
    }

    pub(crate) fn push_teardown(self, objects: &mut Vec<DeviceObject>)
        ensures
            final(objects)@ == old(objects)@ + self.objects(),
    {
        objects.push(DeviceObject::Buffer(self.buffer));
        objects.push(DeviceObject::Memory(self.memory));
        assert(objects@ =~= old(objects)@ + self.objects());
    }
}

/// The producer's memory of a biplanar frame.
#[derive(Clone, Copy, Debug, PartialEq, Eq, Structural)]
pub enum Nv12SourceAllocation {
    /// As an image that is sampled.
    Direct(ImageAllocation),
    /// As a buffer that is copied.
    Transfer { source: BufferAllocation },
    /// As a buffer that a compute shader reads through a view.
    Compute { view: RawHandle, source: BufferAllocation },
}

impl Nv12SourceAllocation {
    /// What is destroyed with the source, in order. A view goes before its buffer.
    pub open spec fn objects(self) -> Seq<DeviceObject> {
        match self {
            Nv12SourceAllocation::Direct(sampled) => sampled.objects(),
            Nv12SourceAllocation::Transfer { source } => source.objects(),
            Nv12SourceAllocation::Compute { view, source } => seq![DeviceObject::BufferView(view)]
                + source.objects(),
        }
    }

    /// What to destroy, in order.
    pub fn teardown(self) -> (objects: Vec<DeviceObject>)
        ensures
            objects@ == self.objects(),
    {
        let mut objects: Vec<DeviceObject> = Vec::new();
        match self {
            Nv12SourceAllocation::Direct(sampled) => {
                sampled.push_teardown(&mut objects);
            },
            Nv12SourceAllocation::Transfer { source } => {
                source.push_teardown(&mut objects);
            },
            Nv12SourceAllocation::Compute { view, source } => {
                objects.push(DeviceObject::BufferView(view));
                source.push_teardown(&mut objects);
            },
        }
        assert(objects@ =~= self.objects());
        objects
    }

    /// The view that a compute shader reads, where there is one.
    pub fn compute_view(self) -> (view: Option<RawHandle>)
        ensures
            view == (match self {
                Nv12SourceAllocation::Compute { view, .. } => Some(view),
                _ => None,
            }),
    {
        match self {
            Nv12SourceAllocation::Compute { view, .. } => Some(view),
            _ => None,
        }
    }
}

/// The producer's memory of a packed frame.
#[derive(Clone, Copy, Debug, PartialEq, Eq, Structural)]
pub enum PackedSourceAllocation {
    /// As an image that is sampled.
    Direct(ImageAllocation),
    /// As a buffer that a compute shader reads through a view.
    Staged { view: RawHandle, source: BufferAllocation },
}

impl PackedSourceAllocation {
    /// What is destroyed with the source, in order. A view goes before its buffer.
    pub open spec fn objects(self) -> Seq<DeviceObject> {
        match self {
            PackedSourceAllocation::Direct(sampled) => sampled.objects(),
            PackedSourceAllocation::Staged { view, source } => seq![DeviceObject::BufferView(view)]
                + source.objects(),
        }
    }

    /// What to destroy, in order.
    pub fn teardown(self) -> (objects: Vec<DeviceObject>)
        ensures
            objects@ == self.objects(),
    {
        let mut objects: Vec<DeviceObject> = Vec::new();
        match self {
            PackedSourceAllocation::Direct(sampled) => {
                sampled.push_teardown(&mut objects);
            },
            PackedSourceAllocation::Staged { view, source } => {
                objects.push(DeviceObject::BufferView(view));
                source.push_teardown(&mut objects);
            },
        }
        assert(objects@ =~= self.objects());
        objects
    }
}

/// The images that a staged frame is sampled from.
#[derive(Clone, Copy, Debug, PartialEq, Eq, Structural)]
pub enum StagedSampledImages {
    Rgba { image: RawHandle },
    Bgra { image: RawHandle },
    Nv12 { image: RawHandle },
    YuvPlanes { luma: RawHandle, chroma: RawHandle },
}

/// The images of a biplanar output, with the views that a compute shader writes.
#[derive(Clone, Copy, Debug, PartialEq, Eq, Structural)]
pub enum StagedOutputResources {
    Rgba { view: RawHandle, sampled: ImageAllocation },
    Nv12 { sampled: ImageAllocation },
    TransferYuvPlanes { luma: ImageAllocation, chroma: ImageAllocation },
    YuvPlanes {
        luma_view: RawHandle,
        luma: ImageAllocation,
        chroma_view: RawHandle,
        chroma: ImageAllocation,
    },
}

impl StagedOutputResources {
    /// The images that `sampled_images` returns.
    pub open spec fn images(self) -> StagedSampledImages {
        match self {
            StagedOutputResources::Rgba { sampled, .. } => StagedSampledImages::Rgba {
                image: sampled.image,
            },
            StagedOutputResources::Nv12 { sampled } => StagedSampledImages::Nv12 {
                image: sampled.image,
            },
            StagedOutputResources::TransferYuvPlanes { luma, chroma } =>
                StagedSampledImages::YuvPlanes { luma: luma.image, chroma: chroma.image },
            StagedOutputResources::YuvPlanes { luma, chroma, .. } =>
                StagedSampledImages::YuvPlanes { luma: luma.image, chroma: chroma.image },
        }
    }

    /// The images that the renderer samples.
    pub fn sampled_images(self) -> (images: StagedSampledImages)
        ensures
            images == self.images(),
    {
        match self {
            StagedOutputResources::Rgba { sampled, .. } => StagedSampledImages::Rgba {
                image: sampled.image,
            },
            StagedOutputResources::Nv12 { sampled } => StagedSampledImages::Nv12 {
                image: sampled.image,
            },
            StagedOutputResources::TransferYuvPlanes { luma, chroma } =>
                StagedSampledImages::YuvPlanes { luma: luma.image, chroma: chroma.image },
            StagedOutputResources::YuvPlanes { luma, chroma, .. } =>
                StagedSampledImages::YuvPlanes { luma: luma.image, chroma: chroma.image },
        }
    }

    /// What is destroyed with the images, in order. A view goes before its image.
    pub open spec fn objects(self) -> Seq<DeviceObject> {
        match self {
            StagedOutputResources::Rgba { view, sampled } => seq![DeviceObject::ImageView(view)]
                + sampled.objects(),
            StagedOutputResources::Nv12 { sampled } => sampled.objects(),
            StagedOutputResources::TransferYuvPlanes { luma, chroma } => luma.objects()
                + chroma.objects(),
            StagedOutputResources::YuvPlanes { luma_view, luma, chroma_view, chroma } => seq![
                DeviceObject::ImageView(luma_view),
            ] + luma.objects() + seq![DeviceObject::ImageView(chroma_view)] + chroma.objects(),
        }
    }
}

/// A biplanar output: its images, and the descriptors of a compute shader that writes them.
#[derive(Clone, Copy, Debug, PartialEq, Eq)]
pub struct StagedOutput {
    pub descriptor_pool: Option<RawHandle>,
    pub descriptor_set: Option<RawHandle>,
    pub resources: StagedOutputResources,
}

impl StagedOutput {
    /// What is destroyed with the output, in order.
    pub open spec fn objects(self) -> Seq<DeviceObject> {
        match self.descriptor_pool {
            Some(pool) => seq![DeviceObject::DescriptorPool(pool)] + self.resources.objects(),
            None => self.resources.objects(),
        }
    }

    /// What to destroy, in order.
    pub fn teardown(self) -> (objects: Vec<DeviceObject>)
        ensures
            objects@ == self.objects(),
    {
        let mut objects: Vec<DeviceObject> = Vec::new();
        match self.descriptor_pool {
            Some(pool) => objects.push(DeviceObject::DescriptorPool(pool)),
            None => {},
        }
        match self.resources {
            StagedOutputResources::Rgba { view, sampled } => {
                objects.push(DeviceObject::ImageView(view));
                sampled.push_teardown(&mut objects);
            },
            StagedOutputResources::Nv12 { sampled } => {
                sampled.push_teardown(&mut objects);
            },
            StagedOutputResources::TransferYuvPlanes { luma, chroma } => {
                luma.push_teardown(&mut objects);
                chroma.push_teardown(&mut objects);
            },
            StagedOutputResources::YuvPlanes { luma_view, luma, chroma_view, chroma } => {
                objects.push(DeviceObject::ImageView(luma_view));
                luma.push_teardown(&mut objects);
                objects.push(DeviceObject::ImageView(chroma_view));
                chroma.push_teardown(&mut objects);
            },
        }
        assert(objects@ =~= self.objects());
        objects
    }
}

/// A packed output: its image, the view that a compute shader writes, and the descriptors.
#[derive(Clone, Copy, Debug, PartialEq, Eq, Structural)]
pub struct PackedOutput {
    pub descriptor_pool: RawHandle,
    pub descriptor_set: RawHandle,
    pub storage_view: RawHandle,
    pub sampled: ImageAllocation,
}

impl PackedOutput {
    /// What is destroyed with the output, in order. The view goes before the image that it aliases.
    pub open spec fn objects(self) -> Seq<DeviceObject> {
        seq![
            DeviceObject::DescriptorPool(self.descriptor_pool),
            DeviceObject::ImageView(self.storage_view),
        ] + self.sampled.objects()
    }

    /// What to destroy, in order.
    pub fn teardown(self) -> (objects: Vec<DeviceObject>)
        ensures
            objects@ == self.objects(),
    {
        let mut objects: Vec<DeviceObject> = Vec::new();
        objects.push(DeviceObject::DescriptorPool(self.descriptor_pool));
        objects.push(DeviceObject::ImageView(self.storage_view));
        self.sampled.push_teardown(&mut objects);
        assert(objects@ =~= self.objects());
        objects
    }
}

/// What a compute pipeline does.
#[derive(Clone, Copy, Debug, PartialEq, Eq)]
pub enum ComputeKind {
    Nv12(Nv12ComputeOutput),
    Packed,
}

/// A compute pipeline with its layouts.
#[derive(Clone, Copy, Debug, PartialEq, Eq)]
pub struct ComputePipeline {
    pub kind: ComputeKind,
    pub descriptor_set_layout: RawHandle,
    pub pipeline_layout: RawHandle,
    pub pipeline: RawHandle,
}

impl ComputePipeline {
    /// What is destroyed with the pipeline, in order.
    pub open spec fn objects(self) -> Seq<DeviceObject> {
        seq![
            DeviceObject::Pipeline(self.pipeline),
            DeviceObject::PipelineLayout(self.pipeline_layout),
            DeviceObject::DescriptorSetLayout(self.descriptor_set_layout),
        ]
    }

    /// What to destroy, in order.
    pub fn teardown(self) -> (objects: Vec<DeviceObject>)
        ensures
            objects@ == self.objects(),
    {
        let mut objects: Vec<DeviceObject> = Vec::new();
        objects.push(DeviceObject::Pipeline(self.pipeline));
        objects.push(DeviceObject::PipelineLayout(self.pipeline_layout));
        objects.push(DeviceObject::DescriptorSetLayout(self.descriptor_set_layout));
        assert(objects@ =~= self.objects());
        objects
    }
}

} // verus!
