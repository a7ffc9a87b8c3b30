//! Output slots: which images, views and descriptors they consist of, and how they are made.

use vstd::prelude::*;

use crate::text::{agrees, Message};
use crate::vulkan::construction::{
    failed, fails, labelled_failure, labelled_text, BuildFailure,
};
use crate::vulkan::error::{ImportFault, VulkanImportError};
use crate::vulkan::flags::{
    ImageUsageFlags, PixelFormat, RawHandle, IMAGE_CREATE_MUTABLE_FORMAT, IMAGE_CREATE_NONE,
};
use crate::vulkan::memory::LocalImagePlan;
use crate::vulkan::resources::{
    ComputeKind, ComputePipeline, DeviceObject, ImageAllocation, PackedOutput, StagedOutput,
    StagedOutputResources,
};
use crate::vulkan::result::{failure, failure_text};
use crate::vulkan::types::{
    Nv12ComputeOutput, Nv12ImportStrategy, IMPORTED_NV12_FORMAT, IMPORTED_RGBA_FORMAT,
    IMPORTED_SCANOUT_BGRA_FORMAT, STAGED_NV12_CHROMA_FORMAT, STAGED_NV12_LUMA_FORMAT,
    STAGED_NV12_OUTPUT_USAGE, STAGED_PACKED_OUTPUT_USAGE, STAGED_PACKED_STORAGE_VIEW_FORMAT,
    TRANSFER_NV12_OUTPUT_USAGE,
};

verus! {

/// The descriptors of an output that a compute shader writes.
#[derive(Clone, Copy, Debug, PartialEq, Eq, Structural)]
pub struct DescriptorPlan {
    pub set_layout: RawHandle,
    pub source_view: RawHandle,
    /// How many images the shader writes.
    pub storage_images: u32,
}

/// The parts of an output: one or two images, and, where a compute shader writes them, a view of
/// each and the descriptors.
#[derive(Clone, Copy, Debug, PartialEq, Eq)]
pub struct OutputPlan {
    pub packed: bool,
    pub first: LocalImagePlan,
    pub second: Option<LocalImagePlan>,
    pub descriptors: Option<DescriptorPlan>,
}

impl OutputPlan {
    /// How many images there are.
    pub open spec fn image_count(self) -> int {
        if self.second is Some {
            2
        } else {
            1
        }
    }

    /// The image at `index`.
    pub open spec fn image_plan(self, index: int) -> LocalImagePlan {
        match self.second {
            Some(second) if index > 0 => second,
            _ => self.first,
        }
    }

    /// The format of the view of the image at `index`.
    pub open spec fn view_format(self, index: int) -> PixelFormat {
        match self.image_plan(index).view_format {
            Some(format) => format,
            None => self.image_plan(index).format,
        }
    }

    /// The name of the output in diagnostics.
    pub open spec fn label_text(self) -> Seq<char> {
        if self.packed {
            "packed"@
        } else {
            "NV12"@
        }
    }

    fn label(&self) -> (label: &'static str)
        ensures
            label@ == self.label_text(),
    {
        if self.packed {
            "packed"
        } else {
            "NV12"
        }
    }

    fn plan_at(&self, index: usize) -> (plan: LocalImagePlan)
        ensures
            plan == self.image_plan(index as int),
    {
        match self.second {
            Some(second) => if index > 0 {
                second
            } else {
                self.first
            },
            None => self.first,
        }
    }
}

/// A plain image of the importer's own.
pub open spec fn plain_image(
    dimensions: (u32, u32),
    format: PixelFormat,
    usage: ImageUsageFlags,
) -> LocalImagePlan {
    LocalImagePlan { dimensions, format, usage, flags: IMAGE_CREATE_NONE, view_format: None }
}

fn make_plain_image(dimensions: (u32, u32), format: PixelFormat, usage: ImageUsageFlags) -> (plan:
    LocalImagePlan)
    ensures
        plan == plain_image(dimensions, format, usage),
{
    LocalImagePlan { dimensions, format, usage, flags: IMAGE_CREATE_NONE, view_format: None }
}

/// The size of the chroma plane.
pub open spec fn half(dimensions: (u32, u32)) -> (u32, u32) {
    (dimensions.0 / 2, dimensions.1 / 2)
}

/// The images of a biplanar output.
pub open spec fn output_images(dimensions: (u32, u32), strategy: Nv12ImportStrategy) -> (
    LocalImagePlan,
    Option<LocalImagePlan>,
) {
    let usage = if strategy.is_transfer() {
        TRANSFER_NV12_OUTPUT_USAGE
    } else {
        STAGED_NV12_OUTPUT_USAGE
    };
    match strategy {
        Nv12ImportStrategy::LinearBufferToOptimalYuvPlanes
        | Nv12ImportStrategy::LinearBufferToYuvPlanes => (
            plain_image(dimensions, STAGED_NV12_LUMA_FORMAT, usage),
            Some(plain_image(half(dimensions), STAGED_NV12_CHROMA_FORMAT, usage)),
        ),
        Nv12ImportStrategy::LinearBufferToRgba => (
            plain_image(dimensions, IMPORTED_RGBA_FORMAT, usage),
            None,
        ),
        _ => (plain_image(dimensions, IMPORTED_NV12_FORMAT, usage), None),
    }
}

/// What `plan_staged_output` returns.
pub open spec fn staged_output_verdict(
    dimensions: (u32, u32),
    strategy: Nv12ImportStrategy,
    pipeline: Option<ComputePipeline>,
    source_view: Option<RawHandle>,
) -> Result<OutputPlan, Seq<char>> {
    let (first, second) = output_images(dimensions, strategy);
    let written = if strategy is LinearBufferToRgba {
        Nv12ComputeOutput::Rgba
    } else {
        Nv12ComputeOutput::YuvPlanes
    };
    if strategy.is_transfer() {
        if pipeline is Some || source_view is Some {
            Err("Vulkan NV12 transfer output must not carry compute resources"@)
        } else {
            Ok(OutputPlan { packed: false, first, second, descriptors: None })
        }
    } else if pipeline is None {
        Err("Vulkan compute NV12 output is missing its compute pipeline"@)
    } else if source_view is None {
        Err("Vulkan compute NV12 output is missing its uniform texel-buffer view"@)
    } else if strategy is DirectSampledImage {
        Err("direct NV12 import cannot allocate a staged output slot"@)
    } else if pipeline.unwrap().kind != ComputeKind::Nv12(written) {
        Err("Vulkan NV12 pipeline/output strategy mismatch"@)
    } else {
        Ok(
            OutputPlan {
                packed: false,
                first,
                second,
                descriptors: Some(
                    DescriptorPlan {
                        set_layout: pipeline.unwrap().descriptor_set_layout,
                        source_view: source_view.unwrap(),
                        storage_images: if strategy is LinearBufferToYuvPlanes {
                            2
                        } else {
                            1
                        },
                    },
                ),
            },
        )
    }
}

/// The parts of an output for a biplanar strategy. Transfer outputs have nothing to do with
/// compute; compute outputs need the pipeline that writes them and the view that it reads.
pub fn plan_staged_output(
    dimensions: (u32, u32),
    strategy: Nv12ImportStrategy,
    pipeline: Option<ComputePipeline>,
    source_view: Option<RawHandle>,
) -> (result: Result<OutputPlan, String>)
    ensures
        agrees(result, staged_output_verdict(dimensions, strategy, pipeline, source_view)),
{
    let chroma: (u32, u32) = (dimensions.0 / 2, dimensions.1 / 2);
    match strategy {
        Nv12ImportStrategy::LinearBufferToOptimalNv12
        | Nv12ImportStrategy::LinearBufferToOptimalYuvPlanes => {
            if pipeline.is_some() || source_view.is_some() {
                return Err(
                    "Vulkan NV12 transfer output must not carry compute resources".to_owned(),
                );
            }
            let usage: u32 = TRANSFER_NV12_OUTPUT_USAGE;
            return Ok(
                match strategy {
                    Nv12ImportStrategy::LinearBufferToOptimalYuvPlanes => OutputPlan {
                        packed: false,
                        first: make_plain_image(dimensions, STAGED_NV12_LUMA_FORMAT, usage),
                        second: Some(make_plain_image(chroma, STAGED_NV12_CHROMA_FORMAT, usage)),
                        descriptors: None,
                    },
                    _ => OutputPlan {
                        packed: false,
                        first: make_plain_image(dimensions, IMPORTED_NV12_FORMAT, usage),
                        second: None,
                        descriptors: None,
                    },
                },
            );
        },
        _ => {},
    }
    let pipeline = match pipeline {
        Some(pipeline) => pipeline,
        None => {
            return Err(
                "Vulkan compute NV12 output is missing its compute pipeline".to_owned(),
            );
        },
    };
    let source_view: u64 = match source_view {
        Some(source_view) => source_view,
        None => {
            return Err(
                "Vulkan compute NV12 output is missing its uniform texel-buffer view".to_owned(),
            );
        },
    };
    let usage: u32 = STAGED_NV12_OUTPUT_USAGE;
    match strategy {
        Nv12ImportStrategy::LinearBufferToRgba => match pipeline.kind {
            ComputeKind::Nv12(Nv12ComputeOutput::Rgba) => Ok(
                OutputPlan {
                    packed: false,
                    first: make_plain_image(dimensions, IMPORTED_RGBA_FORMAT, usage),
                    second: None,
                    descriptors: Some(
                        DescriptorPlan {
                            set_layout: pipeline.descriptor_set_layout,
                            source_view,
                            storage_images: 1,
                        },
                    ),
                },
            ),
            _ => Err("Vulkan NV12 pipeline/output strategy mismatch".to_owned()),
        },
        Nv12ImportStrategy::LinearBufferToYuvPlanes => match pipeline.kind {
            ComputeKind::Nv12(Nv12ComputeOutput::YuvPlanes) => Ok(
                OutputPlan {
                    packed: false,
                    first: make_plain_image(dimensions, STAGED_NV12_LUMA_FORMAT, usage),
                    second: Some(make_plain_image(chroma, STAGED_NV12_CHROMA_FORMAT, usage)),
                    descriptors: Some(
                        DescriptorPlan {
                            set_layout: pipeline.descriptor_set_layout,
                            source_view,
                            storage_images: 2,
                        },
                    ),
                },
            ),
            _ => Err("Vulkan NV12 pipeline/output strategy mismatch".to_owned()),
        },
        _ => Err("direct NV12 import cannot allocate a staged output slot".to_owned()),
    }
}

/// The parts of a packed output: a BGRA image that the shader writes through a view of whole
/// words.
pub open spec fn packed_output_plan(
    dimensions: (u32, u32),
    pipeline: ComputePipeline,
    source_view: RawHandle,
) -> OutputPlan {
    OutputPlan {
        packed: true,
        first: LocalImagePlan {
            dimensions,
            format: IMPORTED_SCANOUT_BGRA_FORMAT,
            usage: STAGED_PACKED_OUTPUT_USAGE,
            flags: IMAGE_CREATE_MUTABLE_FORMAT,
            view_format: Some(STAGED_PACKED_STORAGE_VIEW_FORMAT),
        },
        second: None,
        descriptors: Some(
            DescriptorPlan {
                set_layout: pipeline.descriptor_set_layout,
                source_view,
                storage_images: 1,
            },
        ),
    }
}

/// The parts of a packed output.
pub fn plan_packed_output(
    dimensions: (u32, u32),
    pipeline: ComputePipeline,
    source_view: RawHandle,
) -> (plan: OutputPlan)
    ensures
        plan == packed_output_plan(dimensions, pipeline, source_view),
{
    OutputPlan {
        packed: true,
        first: LocalImagePlan {
            dimensions,
            format: IMPORTED_SCANOUT_BGRA_FORMAT,
            usage: STAGED_PACKED_OUTPUT_USAGE,
            flags: IMAGE_CREATE_MUTABLE_FORMAT,
            view_format: Some(STAGED_PACKED_STORAGE_VIEW_FORMAT),
        },
        second: None,
        descriptors: Some(
            DescriptorPlan {
                set_layout: pipeline.descriptor_set_layout,
                source_view,
                storage_images: 1,
            },
        ),
    }
}

/// What has been made of an output so far.
#[derive(Debug)]
pub struct OutputBuild {
    pub plan: OutputPlan,
    pub images: Vec<ImageAllocation>,
    pub views: Vec<RawHandle>,
    pub descriptor_pool: Option<RawHandle>,
}

/// What an output needs next.
#[derive(Clone, Copy, Debug, PartialEq, Eq)]
pub enum OutputAction {
    CreateImage(LocalImagePlan),
    CreateView { image: RawHandle, format: PixelFormat },
    CreateDescriptorPool { storage_images: u32 },
    AllocateDescriptorSet { pool: RawHandle, layout: RawHandle },
    Finish,
}

/// What is destroyed with the image at `index`, in order: its view, where it has one, goes first.
pub open spec fn image_objects(
    images: Seq<ImageAllocation>,
    views: Seq<RawHandle>,
    index: int,
) -> Seq<DeviceObject> {
    if index < views.len() {
        seq![DeviceObject::ImageView(views[index])] + images[index].objects()
    } else {
        images[index].objects()
    }
}

/// The objects of the first `count` images and of their views, image by image.
pub open spec fn oldest_first(
    images: Seq<ImageAllocation>,
    views: Seq<RawHandle>,
    count: int,
) -> Seq<DeviceObject>
    decreases count,
{
    if count <= 0 {
        Seq::empty()
    } else {
        oldest_first(images, views, count - 1) + image_objects(images, views, count - 1)
    }
}

/// The objects of the first `count` images and of their views, the last image first.
pub open spec fn newest_first(
    images: Seq<ImageAllocation>,
    views: Seq<RawHandle>,
    count: int,
) -> Seq<DeviceObject>
    decreases count,
{
    if count <= 0 {
        Seq::empty()
    } else {
        image_objects(images, views, count - 1) + newest_first(images, views, count - 1)
    }
}

impl OutputBuild {
    /// The output has views.
    pub open spec fn has_views(self) -> bool {
        self.plan.descriptors is Some
    }

    /// Images and views are made in turn, and the descriptors last.
    pub open spec fn well_formed(self) -> bool {
        &&& self.images.len() <= self.plan.image_count()
        &&& self.has_views() ==> self.views.len() <= self.images.len() <= self.views.len() + 1
        &&& !self.has_views() ==> self.views.len() == 0
        &&& self.descriptor_pool is Some ==> self.has_views() && self.images.len()
            == self.plan.image_count() && self.views.len() == self.images.len()
    }

    /// Every image and every view has been made.
    pub open spec fn has_images(self) -> bool {
        &&& self.images.len() == self.plan.image_count()
        &&& self.has_views() ==> self.views.len() == self.images.len()
    }

    /// Everything that exists, in the order in which it is destroyed: the descriptors first, a view
    /// before its image, and an image before its memory. Images go as they do in an output once
    /// there are all of them; before that, the one that was made last goes first.
    pub open spec fn objects(self) -> Seq<DeviceObject> {
        (match self.descriptor_pool {
            Some(pool) => seq![DeviceObject::DescriptorPool(pool)],
            None => Seq::empty(),
        }) + (if self.has_images() {
            oldest_first(self.images@, self.views@, self.images.len() as int)
        } else {
            newest_first(self.images@, self.views@, self.images.len() as int)
        })
    }

    /// What `next` returns.
    pub open spec fn action(self) -> OutputAction {
        if self.has_views() && self.views.len() < self.images.len() {
            OutputAction::CreateView {
                image: self.images[self.views.len() as int].image,
                format: self.plan.view_format(self.views.len() as int),
            }
        } else if self.images.len() < self.plan.image_count() {
            OutputAction::CreateImage(self.plan.image_plan(self.images.len() as int))
        } else {
            match (self.plan.descriptors, self.descriptor_pool) {
                (Some(descriptors), None) => OutputAction::CreateDescriptorPool {
                    storage_images: descriptors.storage_images,
                },
                (Some(descriptors), Some(pool)) => OutputAction::AllocateDescriptorSet {
                    pool,
                    layout: descriptors.set_layout,
                },
                (None, _) => OutputAction::Finish,
            }
        }
    }

    /// Nothing has been made.
    pub fn new(plan: OutputPlan) -> (build: OutputBuild)
        ensures
            build.well_formed(),
            build.plan == plan,
            build.images.len() == 0,
            build.views.len() == 0,
            build.descriptor_pool is None,
    {
        OutputBuild { plan, images: Vec::new(), views: Vec::new(), descriptor_pool: None }
    }

    /// What to do next.
    pub fn next(&self) -> (action: OutputAction)
        requires
            self.well_formed(),
        ensures
            action == self.action(),
    {
        if self.plan.descriptors.is_some() && self.views.len() < self.images.len() {
            let index: usize = self.views.len();
            let plan = self.plan.plan_at(index);
            return OutputAction::CreateView {
                image: self.images[index].image,
                format: match plan.view_format {
                    Some(format) => format,
                    None => plan.format,
                },
            };
        }
        let count: usize = if self.plan.second.is_some() {
            2
        } else {
            1
        };
        if self.images.len() < count {
            return OutputAction::CreateImage(self.plan.plan_at(self.images.len()));
        }
        match (self.plan.descriptors, self.descriptor_pool) {
            (Some(descriptors), None) => OutputAction::CreateDescriptorPool {
                storage_images: descriptors.storage_images,
            },
            (Some(descriptors), Some(pool)) => OutputAction::AllocateDescriptorSet {
                pool,
                layout: descriptors.set_layout,
            },
            (None, _) => OutputAction::Finish,
        }
    }

    fn push_image(&self, index: usize, destroy: &mut Vec<DeviceObject>)
        requires
            index < self.images.len(),
        ensures
            final(destroy)@ == old(destroy)@ + image_objects(
                self.images@,
                self.views@,
                index as int,
            ),
    {
        if index < self.views.len() {
            destroy.push(DeviceObject::ImageView(self.views[index]));
        }
        self.images[index].push_teardown(destroy);
        assert(destroy@ =~= old(destroy)@ + image_objects(
            self.images@,
            self.views@,
            index as int,
        ));
    }

    fn unmade(self) -> (destroy: Vec<DeviceObject>)
        requires
            self.well_formed(),
        ensures
            destroy@ == self.objects(),
    {
        let mut destroy: Vec<DeviceObject> = Vec::new();
        match self.descriptor_pool {
            Some(pool) => destroy.push(DeviceObject::DescriptorPool(pool)),
            None => {},
        }
        let ghost descriptors = destroy@;
        let planned: usize = if self.plan.second.is_some() {
            2
        } else {
            1
        };
        let count: usize = self.images.len();
        if count == planned && (self.plan.descriptors.is_none() || self.views.len() == count) {
            let mut index: usize = 0;
            while index < count
                invariant
                    index <= count == self.images.len(),
                    destroy@ == descriptors + oldest_first(
                        self.images@,
                        self.views@,
                        index as int,
                    ),
                decreases count - index,
            {
                self.push_image(index, &mut destroy);
                index += 1;
                assert(destroy@ =~= descriptors + oldest_first(
                    self.images@,
                    self.views@,
                    index as int,
                ));
            }
        } else {
            let mut index: usize = count;
            while index > 0
                invariant
                    index <= count == self.images.len(),
                    destroy@ + newest_first(self.images@, self.views@, index as int) == descriptors
                        + newest_first(self.images@, self.views@, count as int),
                decreases index,
            {
                let ghost before = destroy@;
                index -= 1;
                self.push_image(index, &mut destroy);
                assert(destroy@ + newest_first(self.images@, self.views@, index as int) =~= before
                    + newest_first(self.images@, self.views@, index + 1));
            }
        }
        assert(destroy@ =~= self.objects());
        destroy
    }

    /// An image was asked for.
    pub fn image_made(self, made: Result<ImageAllocation, VulkanImportError>) -> (result: Result<
        OutputBuild,
        BuildFailure,
    >)
        requires
            self.well_formed(),
            self.action() is CreateImage,
        ensures
            match made {
                Ok(image) => {
                    &&& result matches Ok(next)
                    &&& next.well_formed()
                    &&& next.plan == self.plan
                    &&& next.images@ == self.images@.push(image)
                    &&& next.views@ == self.views@
                    &&& next.descriptor_pool == self.descriptor_pool
                },
                Err(error) => fails(result, error@, self.objects()),
            },
    {
        match made {
            Ok(image) => {
                let mut next = self;
                next.images.push(image);
                Ok(next)
            },
            Err(error) => Err(BuildFailure { error, destroy: self.unmade() }),
        }
    }

    /// A view was asked for.
    pub fn view_made(self, made: Result<RawHandle, i32>) -> (result: Result<OutputBuild, BuildFailure>)
        requires
            self.well_formed(),
            self.action() is CreateView,
        ensures
            match made {
                Ok(view) => {
                    &&& result matches Ok(next)
                    &&& next.well_formed()
                    &&& next.plan == self.plan
                    &&& next.images@ == self.images@
                    &&& next.views@ == self.views@.push(view)
                    &&& next.descriptor_pool == self.descriptor_pool
                },
                Err(code) => fails(
                    result,
                    ImportFault::Other(
                        failure_text("failed to create staged output view: "@, code),
                    ),
                    self.objects(),
                ),
            },
    {
        match made {
            Ok(view) => {
                let mut next = self;
                next.views.push(view);
                Ok(next)
            },
            Err(code) => failed(
                failure("failed to create staged output view: ", code),
                self.unmade(),
            ),
        }
    }

    /// A descriptor pool was asked for.
    pub fn descriptor_pool_made(self, made: Result<RawHandle, i32>) -> (result: Result<
        OutputBuild,
        BuildFailure,
    >)
        requires
            self.well_formed(),
            self.action() is CreateDescriptorPool,
        ensures
            match made {
                Ok(pool) => {
                    &&& result matches Ok(next)
                    &&& next.well_formed()
                    &&& next.plan == self.plan
                    &&& next.images@ == self.images@
                    &&& next.views@ == self.views@
                    &&& next.descriptor_pool == Some(pool)
                    &&& next.objects() == seq![DeviceObject::DescriptorPool(pool)] + self.objects()
                },
                Err(code) => fails(
                    result,
                    ImportFault::Other(
                        labelled_text(
                            "failed to create staged "@,
                            self.plan.label_text(),
                            " descriptor pool: "@,
                            code,
                        ),
                    ),
                    self.objects(),
                ),
            },
    {
        match made {
            Ok(pool) => {
                let mut next = self;
                next.descriptor_pool = Some(pool);
                assert(next.objects() =~= seq![DeviceObject::DescriptorPool(pool)]
                    + self.objects());
                Ok(next)
            },
            Err(code) => failed(
                labelled_failure(
                    "failed to create staged ",
                    self.plan.label(),
                    " descriptor pool: ",
                    code,
                ),
                self.unmade(),
            ),
        }
    }

    /// A descriptor set was asked for. The set belongs to its pool.
    pub fn descriptor_set_made(self, made: Result<Option<RawHandle>, i32>) -> (result: Result<
        (OutputBuild, RawHandle),
        BuildFailure,
    >)
        requires
            self.well_formed(),
            self.action() is AllocateDescriptorSet,
        ensures
            match made {
                Ok(Some(set)) => result == Ok::<_, BuildFailure>((self, set)),
                Ok(None) => fails(
                    result,
                    ImportFault::Other(
                        "Vulkan returned no staged "@ + self.plan.label_text()
                            + " descriptor set"@,
                    ),
                    self.objects(),
                ),
                Err(code) => fails(
                    result,
                    ImportFault::Other(
                        labelled_text(
                            "failed to allocate staged "@,
                            self.plan.label_text(),
                            " descriptor set: "@,
                            code,
                        ),
                    ),
                    self.objects(),
                ),
            },
    {
        match made {
            Ok(Some(set)) => Ok((self, set)),
            Ok(None) => failed(
                Message::new("Vulkan returned no staged ").text(self.plan.label()).text(
                    " descriptor set",
                ).done(),
                self.unmade(),
            ),
            Err(code) => failed(
                labelled_failure(
                    "failed to allocate staged ",
                    self.plan.label(),
                    " descriptor set: ",
                    code,
                ),
                self.unmade(),
            ),
        }
    }
}

/// The build has made everything that a strategy's output consists of.
pub open spec fn is_complete(build: OutputBuild, strategy: Nv12ImportStrategy) -> bool {
    let planes: int = match strategy {
        Nv12ImportStrategy::LinearBufferToOptimalYuvPlanes
        | Nv12ImportStrategy::LinearBufferToYuvPlanes => 2,
        _ => 1,
    };
    &&& build.images.len() == planes
    &&& build.views.len() == (if strategy.is_compute() {
        planes
    } else {
        0
    })
}

/// The images and views of a complete biplanar output.
pub open spec fn output_resources(build: OutputBuild, strategy: Nv12ImportStrategy) ->
    StagedOutputResources {
    match strategy {
        Nv12ImportStrategy::LinearBufferToRgba => StagedOutputResources::Rgba {
            view: build.views[0],
            sampled: build.images[0],
        },
        Nv12ImportStrategy::LinearBufferToYuvPlanes => StagedOutputResources::YuvPlanes {
            luma_view: build.views[0],
            luma: build.images[0],
            chroma_view: build.views[1],
            chroma: build.images[1],
        },
        Nv12ImportStrategy::LinearBufferToOptimalYuvPlanes =>
            StagedOutputResources::TransferYuvPlanes {
            luma: build.images[0],
            chroma: build.images[1],
        },
        _ => StagedOutputResources::Nv12 { sampled: build.images[0] },
    }
}

/// The biplanar output that has been made.
pub fn finish_staged_output(
    build: OutputBuild,
    strategy: Nv12ImportStrategy,
    descriptor_set: Option<RawHandle>,
) -> (output: StagedOutput)
    requires
        is_complete(build, strategy),
    ensures
        output == (StagedOutput {
            descriptor_pool: build.descriptor_pool,
            descriptor_set,
            resources: output_resources(build, strategy),
        }),
{
    let resources = match strategy {
        Nv12ImportStrategy::LinearBufferToRgba => StagedOutputResources::Rgba {
            view: build.views[0],
            sampled: build.images[0],
        },
        Nv12ImportStrategy::LinearBufferToYuvPlanes => StagedOutputResources::YuvPlanes {
            luma_view: build.views[0],
            luma: build.images[0],
            chroma_view: build.views[1],
            chroma: build.images[1],
        },
        Nv12ImportStrategy::LinearBufferToOptimalYuvPlanes =>
            StagedOutputResources::TransferYuvPlanes {
            luma: build.images[0],
            chroma: build.images[1],
        },
        _ => StagedOutputResources::Nv12 { sampled: build.images[0] },
    };
    StagedOutput { descriptor_pool: build.descriptor_pool, descriptor_set, resources }
}

/// The packed output that has been made.
pub fn finish_packed_output(build: OutputBuild, descriptor_set: RawHandle) -> (output: PackedOutput)
    requires
        build.images.len() == 1,
        build.views.len() == 1,
        build.descriptor_pool is Some,
    ensures
        output == (PackedOutput {
            descriptor_pool: build.descriptor_pool.unwrap(),
            descriptor_set,
            storage_view: build.views[0],
            sampled: build.images[0],
        }),
{
    PackedOutput {
        descriptor_pool: match build.descriptor_pool {
            Some(pool) => pool,
            None => 0,
        },
        descriptor_set,
        storage_view: build.views[0],
        sampled: build.images[0],
    }
}

/// Once a build for a plan that was admitted has nothing left to make, it has made everything that
/// the strategy's output consists of, and the output that it becomes owns exactly what was made, in
/// the same order.
pub proof fn a_finished_build_is_a_complete_output(
    build: OutputBuild,
    dimensions: (u32, u32),
    strategy: Nv12ImportStrategy,
    pipeline: Option<ComputePipeline>,
    source_view: Option<RawHandle>,
    descriptor_set: Option<RawHandle>,
)
    requires
        build.well_formed(),
        staged_output_verdict(dimensions, strategy, pipeline, source_view) == Ok::<_, Seq<char>>(
            build.plan,
        ),
        build.action() is Finish || build.action() is AllocateDescriptorSet,
    ensures
        is_complete(build, strategy),
        (StagedOutput {
            descriptor_pool: build.descriptor_pool,
            descriptor_set,
            resources: output_resources(build, strategy),
        }).objects() == build.objects(),
{
    let output = StagedOutput {
        descriptor_pool: build.descriptor_pool,
        descriptor_set,
        resources: output_resources(build, strategy),
    };
    reveal_with_fuel(oldest_first, 3);
    assert(is_complete(build, strategy));
    assert(output.objects() =~= build.objects());
}

/// Once a build for a packed output has nothing left to make, it has made everything that the output
/// consists of, and the output that it becomes owns exactly what was made, in the same order.
pub proof fn a_finished_packed_build_is_a_complete_output(
    build: OutputBuild,
    dimensions: (u32, u32),
    pipeline: ComputePipeline,
    source_view: RawHandle,
    descriptor_set: RawHandle,
)
    requires
        build.well_formed(),
        build.plan == packed_output_plan(dimensions, pipeline, source_view),
        build.action() is Finish || build.action() is AllocateDescriptorSet,
    ensures
        build.action() is AllocateDescriptorSet,
        build.images.len() == 1,
        build.views.len() == 1,
        build.descriptor_pool is Some,
        (PackedOutput {
            descriptor_pool: build.descriptor_pool.unwrap(),
            descriptor_set,
            storage_view: build.views[0],
            sampled: build.images[0],
        }).objects() == build.objects(),
{
    reveal_with_fuel(oldest_first, 2);
    let output = PackedOutput {
        descriptor_pool: build.descriptor_pool.unwrap(),
        descriptor_set,
        storage_view: build.views[0],
        sampled: build.images[0],
    };
    assert(output.objects() =~= build.objects());
}

/// One write into a descriptor set.
#[derive(Clone, Copy, Debug, PartialEq, Eq, Structural)]
pub enum DescriptorWrite {
    /// The buffer that the shader reads.
    TexelBuffer { set: RawHandle, binding: u32, view: RawHandle },
    /// An image that the shader writes, in the general layout.
    StorageImage { set: RawHandle, binding: u32, view: RawHandle },
}

/// What `staged_descriptor_writes` returns.
pub open spec fn staged_writes_verdict(output: StagedOutput, source_view: RawHandle) -> Result<
    Seq<DescriptorWrite>,
    Seq<char>,
> {
    match (output.resources, output.descriptor_set) {
        (StagedOutputResources::Nv12 { .. }, _)
        | (StagedOutputResources::TransferYuvPlanes { .. }, _) => Err(
            "Vulkan transfer NV12 output has no compute descriptor set"@,
        ),
        (_, None) => Err("Vulkan compute NV12 output is missing its descriptor set"@),
        (StagedOutputResources::Rgba { view, .. }, Some(set)) => Ok(
            seq![
                DescriptorWrite::TexelBuffer { set, binding: 0, view: source_view },
                DescriptorWrite::StorageImage { set, binding: 1, view },
            ],
        ),
        (StagedOutputResources::YuvPlanes { luma_view, chroma_view, .. }, Some(set)) => Ok(
            seq![
                DescriptorWrite::TexelBuffer { set, binding: 0, view: source_view },
                DescriptorWrite::StorageImage { set, binding: 1, view: luma_view },
                DescriptorWrite::StorageImage { set, binding: 2, view: chroma_view },
            ],
        ),
    }
}

/// The writes that point the descriptors of a biplanar output at its source and its images.
pub fn staged_descriptor_writes(output: StagedOutput, source_view: RawHandle) -> (result: Result<
    Vec<DescriptorWrite>,
    String,
>)
    ensures
        match (result, staged_writes_verdict(output, source_view)) {
            (Ok(writes), Ok(expected)) => writes@ == expected,
            (Err(message), Err(text)) => message@ == text,
            _ => false,
        },
{
    let (first, second): (u64, Option<u64>) = match output.resources {
        StagedOutputResources::Rgba { view, .. } => (view, None),
        StagedOutputResources::Nv12 { .. } | StagedOutputResources::TransferYuvPlanes { .. } => {
            return Err("Vulkan transfer NV12 output has no compute descriptor set".to_owned());
        },
        StagedOutputResources::YuvPlanes { luma_view, chroma_view, .. } => (
            luma_view,
            Some(chroma_view),
        ),
    };
    let set: u64 = match output.descriptor_set {
        Some(set) => set,
        None => {
            return Err("Vulkan compute NV12 output is missing its descriptor set".to_owned());
        },
    };
    let mut writes: Vec<DescriptorWrite> = Vec::new();
    writes.push(DescriptorWrite::TexelBuffer { set, binding: 0, view: source_view });
    writes.push(DescriptorWrite::StorageImage { set, binding: 1, view: first });
    match second {
        Some(view) => writes.push(DescriptorWrite::StorageImage { set, binding: 2, view }),
        None => {},
    }
    assert(writes@ =~= staged_writes_verdict(output, source_view)->Ok_0);
    Ok(writes)
}

/// The writes that point the descriptors of a packed output at its source and its image.
pub open spec fn packed_writes(output: PackedOutput, source_view: RawHandle) -> Seq<
    DescriptorWrite,
> {
    seq![
        DescriptorWrite::TexelBuffer { set: output.descriptor_set, binding: 0, view: source_view },
        DescriptorWrite::StorageImage {
            set: output.descriptor_set,
            binding: 1,
            view: output.storage_view,
        },
    ]
}

/// The writes that point the descriptors of a packed output at its source and its image.
pub fn packed_descriptor_writes(output: PackedOutput, source_view: RawHandle) -> (writes: Vec<
    DescriptorWrite,
>)
    ensures
        writes@ == packed_writes(output, source_view),
{
    let mut writes: Vec<DescriptorWrite> = Vec::new();
    writes.push(
        DescriptorWrite::TexelBuffer { set: output.descriptor_set, binding: 0, view: source_view },
    );
    writes.push(
        DescriptorWrite::StorageImage {
            set: output.descriptor_set,
            binding: 1,
            view: output.storage_view,
        },
    );
    assert(writes@ =~= packed_writes(output, source_view));
    writes
}

} // verus!
