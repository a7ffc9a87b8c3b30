//! Compute pipelines: their descriptors, their shader code, and how they are made.

use vstd::prelude::*;

use crate::text::Message;
use crate::vulkan::construction::{failed, fails, labelled_failure, labelled_text, BuildFailure};
use crate::vulkan::error::ImportFault;
use crate::vulkan::flags::{
    DescriptorType, RawHandle, DESCRIPTOR_TYPE_STORAGE_IMAGE,
    DESCRIPTOR_TYPE_UNIFORM_TEXEL_BUFFER,
};
use crate::vulkan::image::{NV12_PUSH_CONSTANT_BYTES, PACKED_PUSH_CONSTANT_BYTES};
use crate::vulkan::resources::{ComputeKind, ComputePipeline, DeviceObject};
use crate::vulkan::result::SUCCESS;
use crate::vulkan::types::Nv12ComputeOutput;

verus! {

/// One descriptor of a compute shader.
#[derive(Clone, Copy, Debug, PartialEq, Eq, Structural)]
pub struct DescriptorBinding {
    pub binding: u32,
    pub descriptor_type: DescriptorType,
    pub descriptor_count: u32,
}

impl ComputeKind {
    /// The name of the pipeline in diagnostics.
    pub open spec fn label_text(self) -> Seq<char> {
        match self {
            ComputeKind::Nv12(_) => "NV12"@,
            ComputeKind::Packed => "packed"@,
        }
    }

    fn label(self) -> (label: &'static str)
        ensures
            label@ == self.label_text(),
    {
        match self {
            ComputeKind::Nv12(_) => "NV12",
            ComputeKind::Packed => "packed",
        }
    }

    /// How many images the shader writes.
    pub open spec fn storage_images(self) -> int {
        match self {
            ComputeKind::Nv12(Nv12ComputeOutput::YuvPlanes) => 2,
            _ => 1,
        }
    }

    /// The descriptors of the shader: the source as a texel buffer, then each image that it writes.
    pub fn bindings(self) -> (bindings: Vec<DescriptorBinding>)
        ensures
            bindings.len() == 1 + self.storage_images(),
            forall|index: int|
                0 <= index < bindings.len() ==> #[trigger] bindings[index] == (DescriptorBinding {
                    binding: index as u32,
                    descriptor_type: if index == 0 {
                        DESCRIPTOR_TYPE_UNIFORM_TEXEL_BUFFER
                    } else {
                        DESCRIPTOR_TYPE_STORAGE_IMAGE
                    },
                    descriptor_count: 1,
                }),
    {
        let mut bindings: Vec<DescriptorBinding> = Vec::new();
        bindings.push(
            DescriptorBinding {
                binding: 0,
                descriptor_type: DESCRIPTOR_TYPE_UNIFORM_TEXEL_BUFFER,
                descriptor_count: 1,
            },
        );
        bindings.push(
            DescriptorBinding {
                binding: 1,
                descriptor_type: DESCRIPTOR_TYPE_STORAGE_IMAGE,
                descriptor_count: 1,
            },
        );
        match self {
            ComputeKind::Nv12(Nv12ComputeOutput::YuvPlanes) => bindings.push(
                DescriptorBinding {
                    binding: 2,
                    descriptor_type: DESCRIPTOR_TYPE_STORAGE_IMAGE,
                    descriptor_count: 1,
                },
            ),
            _ => {},
        }
        bindings
    }

    /// How many bytes of push constants the shader takes.
    pub fn push_constant_bytes(self) -> (bytes: u32)
        ensures
            bytes == (match self {
                ComputeKind::Nv12(_) => NV12_PUSH_CONSTANT_BYTES,
                ComputeKind::Packed => PACKED_PUSH_CONSTANT_BYTES,
            }),
    {
        match self {
            ComputeKind::Nv12(_) => NV12_PUSH_CONSTANT_BYTES,
            ComputeKind::Packed => PACKED_PUSH_CONSTANT_BYTES,
        }
    }
}

/// The word in the four bytes from `at`, least significant byte first.
pub open spec fn word_at(code: Seq<u8>, at: int) -> int {
    code[at] + 0x100 * code[at + 1] + 0x1_0000 * code[at + 2] + 0x100_0000 * code[at + 3]
}

/// The words of shader code.
pub open spec fn code_words(code: Seq<u8>) -> Seq<u32> {
    Seq::new(code.len() / 4, |index: int| word_at(code, 4 * index) as u32)
}

/// The words of shader code, or why there are none.
pub open spec fn shader_verdict(kind: ComputeKind, code: Seq<u8>) -> Result<Seq<u32>, Seq<char>> {
    if code.len() % 4 != 0 {
        Err("embedded "@ + kind.label_text() + " compute shader has an invalid byte length"@)
    } else {
        Ok(code_words(code))
    }
}

fn words_of(kind: ComputeKind, code: &[u8]) -> (result: Result<Vec<u32>, String>)
    ensures
        match (result, shader_verdict(kind, code@)) {
            (Ok(words), Ok(expected)) => words@ == expected,
            (Err(message), Err(text)) => message@ == text,
            _ => false,
        },
{
    if code.len() % 4 != 0 {
        return Err(
            Message::new("embedded ").text(kind.label()).text(
                " compute shader has an invalid byte length",
            ).done(),
        );
    }
    let mut words: Vec<u32> = Vec::new();
    let mut at: usize = 0;
    while at < code.len()
        invariant
            at <= code.len(),
            at % 4 == 0,
            code.len() % 4 == 0,
            words.len() == at / 4,
            forall|index: int|
                0 <= index < words.len() ==> #[trigger] words[index] == word_at(
                    code@,
                    4 * index,
                ) as u32,
        decreases code.len() - at,
    {
        let word: u32 = code[at] as u32 + 0x100 * code[at + 1] as u32 + 0x1_0000 * code[at
            + 2] as u32 + 0x100_0000 * code[at + 3] as u32;
        words.push(word);
        at += 4;
    }
    assert(words@ =~= code_words(code@));
    Ok(words)
}

/// The code of a shader for biplanar frames as words.
pub fn shader_words(output: Nv12ComputeOutput, code: &[u8]) -> (result: Result<Vec<u32>, String>)
    ensures
        match (result, shader_verdict(ComputeKind::Nv12(output), code@)) {
            (Ok(words), Ok(expected)) => words@ == expected,
            (Err(message), Err(text)) => message@ == text,
            _ => false,
        },
{
    words_of(ComputeKind::Nv12(output), code)
}

/// The code of the shader for packed pixels as words.
pub fn packed_shader_words(code: &[u8]) -> (result: Result<Vec<u32>, String>)
    ensures
        match (result, shader_verdict(ComputeKind::Packed, code@)) {
            (Ok(words), Ok(expected)) => words@ == expected,
            (Err(message), Err(text)) => message@ == text,
            _ => false,
        },
{
    words_of(ComputeKind::Packed, code)
}

/// The descriptor layout exists; the pipeline layout is next.
#[derive(Clone, Copy, Debug, PartialEq, Eq)]
pub struct PipelineLayoutStep {
    pub kind: ComputeKind,
    pub descriptor_set_layout: RawHandle,
}

impl PipelineLayoutStep {
    /// What exists, newest first.
    pub open spec fn objects(self) -> Seq<DeviceObject> {
        seq![DeviceObject::DescriptorSetLayout(self.descriptor_set_layout)]
    }
}

/// Both layouts exist; the shader module is next.
#[derive(Debug)]
pub struct ShaderStep {
    pub kind: ComputeKind,
    pub descriptor_set_layout: RawHandle,
    pub pipeline_layout: RawHandle,
    pub words: Vec<u32>,
}

impl ShaderStep {
    /// What exists, newest first.
    pub open spec fn objects(self) -> Seq<DeviceObject> {
        seq![
            DeviceObject::PipelineLayout(self.pipeline_layout),
            DeviceObject::DescriptorSetLayout(self.descriptor_set_layout),
        ]
    }
}

/// The shader module exists; the pipeline is next.
#[derive(Clone, Copy, Debug, PartialEq, Eq)]
pub struct PipelineStep {
    pub kind: ComputeKind,
    pub descriptor_set_layout: RawHandle,
    pub pipeline_layout: RawHandle,
    pub shader: RawHandle,
}

impl PipelineStep {
    /// What exists, newest first.
    pub open spec fn objects(self) -> Seq<DeviceObject> {
        seq![
            DeviceObject::ShaderModule(self.shader),
            DeviceObject::PipelineLayout(self.pipeline_layout),
            DeviceObject::DescriptorSetLayout(self.descriptor_set_layout),
        ]
    }
}

/// A descriptor layout was asked for.
pub fn descriptor_layout_created(kind: ComputeKind, created: Result<RawHandle, i32>) -> (result:
    Result<PipelineLayoutStep, BuildFailure>)
    ensures
        match created {
            Ok(handle) => result matches Ok(step) && step.kind == kind
                && step.descriptor_set_layout == handle,
            Err(code) => fails(
                result,
                ImportFault::Other(
                    labelled_text(
                        "failed to create "@,
                        kind.label_text(),
                        " descriptor layout: "@,
                        code,
                    ),
                ),
                Seq::empty(),
            ),
        },
{
    match created {
        Ok(descriptor_set_layout) => Ok(PipelineLayoutStep { kind, descriptor_set_layout }),
        Err(code) => failed(
            labelled_failure("failed to create ", kind.label(), " descriptor layout: ", code),
            Vec::new(),
        ),
    }
}

/// A pipeline layout was asked for. The shader code is read once it exists.
pub fn pipeline_layout_created(
    step: PipelineLayoutStep,
    created: Result<RawHandle, i32>,
    code: &[u8],
) -> (result: Result<ShaderStep, BuildFailure>)
    ensures
        match (created, shader_verdict(step.kind, code@)) {
            (Err(code), _) => fails(
                result,
                ImportFault::Other(
                    labelled_text(
                        "failed to create "@,
                        step.kind.label_text(),
                        " pipeline layout: "@,
                        code,
                    ),
                ),
                step.objects(),
            ),
            (Ok(handle), Err(text)) => fails(
                result,
                ImportFault::Other(text),
                seq![DeviceObject::PipelineLayout(handle)] + step.objects(),
            ),
            (Ok(handle), Ok(words)) => {
                &&& result matches Ok(next)
                &&& next.kind == step.kind
                &&& next.words@ == words
                &&& next.objects() == seq![DeviceObject::PipelineLayout(handle)] + step.objects()
            },
        },
{
    match created {
        Err(code) => {
            let mut destroy: Vec<DeviceObject> = Vec::new();
            destroy.push(DeviceObject::DescriptorSetLayout(step.descriptor_set_layout));
            assert(destroy@ =~= step.objects());
            failed(
                labelled_failure("failed to create ", step.kind.label(), " pipeline layout: ", code),
                destroy,
            )
        },
        Ok(pipeline_layout) => match words_of(step.kind, code) {
            Ok(words) => {
                let next = ShaderStep {
                    kind: step.kind,
                    descriptor_set_layout: step.descriptor_set_layout,
                    pipeline_layout,
                    words,
                };
                assert(next.objects() =~= seq![DeviceObject::PipelineLayout(pipeline_layout)]
                    + step.objects());
                Ok(next)
            },
            Err(message) => {
                let mut destroy: Vec<DeviceObject> = Vec::new();
                destroy.push(DeviceObject::PipelineLayout(pipeline_layout));
                destroy.push(DeviceObject::DescriptorSetLayout(step.descriptor_set_layout));
                assert(destroy@ =~= seq![DeviceObject::PipelineLayout(pipeline_layout)]
                    + step.objects());
                failed(message, destroy)
            },
        },
    }
}

/// A shader module was asked for.
pub fn shader_created(step: ShaderStep, created: Result<RawHandle, i32>) -> (result: Result<
    PipelineStep,
    BuildFailure,
>)
    ensures
        match created {
            Err(code) => fails(
                result,
                ImportFault::Other(
                    labelled_text(
                        "failed to create "@,
                        step.kind.label_text(),
                        " compute shader: "@,
                        code,
                    ),
                ),
                step.objects(),
            ),
            Ok(handle) => {
                &&& result matches Ok(next)
                &&& next.kind == step.kind
                &&& next.objects() == seq![DeviceObject::ShaderModule(handle)] + step.objects()
            },
        },
{
    match created {
        Err(code) => {
            let mut destroy: Vec<DeviceObject> = Vec::new();
            destroy.push(DeviceObject::PipelineLayout(step.pipeline_layout));
            destroy.push(DeviceObject::DescriptorSetLayout(step.descriptor_set_layout));
            assert(destroy@ =~= step.objects());
            failed(
                labelled_failure("failed to create ", step.kind.label(), " compute shader: ", code),
                destroy,
            )
        },
        Ok(shader) => {
            let next = PipelineStep {
                kind: step.kind,
                descriptor_set_layout: step.descriptor_set_layout,
                pipeline_layout: step.pipeline_layout,
                shader,
            };
            assert(next.objects() =~= seq![DeviceObject::ShaderModule(shader)] + step.objects());
            Ok(next)
        },
    }
}

/// The pipelines as objects.
pub open spec fn pipeline_objects(pipelines: Seq<RawHandle>) -> Seq<DeviceObject> {
    Seq::new(pipelines.len(), |index: int| DeviceObject::Pipeline(pipelines[index]))
}

/// A pipeline was asked for: `pipelines` were made, and the call returned `code`. The shader module
/// is spent in any case: a pipeline comes with the order to destroy it, and a failure lists it.
pub fn pipeline_created(step: PipelineStep, pipelines: Vec<RawHandle>, code: i32) -> (result:
    Result<(ComputePipeline, DeviceObject), BuildFailure>)
    ensures
        if code != SUCCESS {
            fails(
                result,
                ImportFault::Other(
                    labelled_text(
                        "failed to create "@,
                        step.kind.label_text(),
                        " compute pipeline: "@,
                        code,
                    ),
                ),
                seq![DeviceObject::ShaderModule(step.shader)] + pipeline_objects(pipelines@) + seq![
                    DeviceObject::PipelineLayout(step.pipeline_layout),
                    DeviceObject::DescriptorSetLayout(step.descriptor_set_layout),
                ],
            )
        } else if pipelines.len() == 0 {
            fails(
                result,
                ImportFault::Other(
                    "Vulkan returned no "@ + step.kind.label_text() + " compute pipeline"@,
                ),
                step.objects(),
            )
        } else {
            &&& result matches Ok((pipeline, spent))
            &&& pipeline.kind == step.kind
            &&& seq![spent] + pipeline.objects() == seq![
                DeviceObject::ShaderModule(step.shader),
                DeviceObject::Pipeline(pipelines@.last()),
                DeviceObject::PipelineLayout(step.pipeline_layout),
                DeviceObject::DescriptorSetLayout(step.descriptor_set_layout),
            ]
        },
{
    let mut destroy: Vec<DeviceObject> = Vec::new();
    destroy.push(DeviceObject::ShaderModule(step.shader));
    if code != SUCCESS {
        let mut index: usize = 0;
        while index < pipelines.len()
            invariant
                index <= pipelines.len(),
                destroy@ == seq![DeviceObject::ShaderModule(step.shader)] + pipeline_objects(
                    pipelines@.take(index as int),
                ),
            decreases pipelines.len() - index,
        {
            destroy.push(DeviceObject::Pipeline(pipelines[index]));
            assert(destroy@ =~= seq![DeviceObject::ShaderModule(step.shader)] + pipeline_objects(
                pipelines@.take(index + 1),
            ));
            index += 1;
        }
        assert(pipelines@.take(index as int) =~= pipelines@);
        destroy.push(DeviceObject::PipelineLayout(step.pipeline_layout));
        destroy.push(DeviceObject::DescriptorSetLayout(step.descriptor_set_layout));
        assert(destroy@ =~= seq![DeviceObject::ShaderModule(step.shader)] + pipeline_objects(
            pipelines@,
        ) + seq![
            DeviceObject::PipelineLayout(step.pipeline_layout),
            DeviceObject::DescriptorSetLayout(step.descriptor_set_layout),
        ]);
        return failed(
            labelled_failure("failed to create ", step.kind.label(), " compute pipeline: ", code),
            destroy,
        );
    }
    if pipelines.len() == 0 {
        destroy.push(DeviceObject::PipelineLayout(step.pipeline_layout));
        destroy.push(DeviceObject::DescriptorSetLayout(step.descriptor_set_layout));
        assert(destroy@ =~= step.objects());
        return failed(
            Message::new("Vulkan returned no ").text(step.kind.label()).text(
                " compute pipeline",
            ).done(),
            destroy,
        );
    }
    let pipeline = ComputePipeline {
        kind: step.kind,
        descriptor_set_layout: step.descriptor_set_layout,
        pipeline_layout: step.pipeline_layout,
        pipeline: pipelines[pipelines.len() - 1],
    };
    let spent = DeviceObject::ShaderModule(step.shader);
    assert(seq![spent] + pipeline.objects() =~= seq![
        DeviceObject::ShaderModule(step.shader),
        DeviceObject::Pipeline(pipelines@.last()),
        DeviceObject::PipelineLayout(step.pipeline_layout),
        DeviceObject::DescriptorSetLayout(step.descriptor_set_layout),
    ]);
    Ok((pipeline, spent))
}

} // verus!
