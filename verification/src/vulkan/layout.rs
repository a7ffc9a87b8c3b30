//! Rules on where the bytes of a frame lie in its allocation.

use vstd::prelude::*;

use crate::text::{agrees, decimal, Message};
use crate::vulkan::error::{imports, ImportFault, VulkanImportError};
use crate::vulkan::types::{ImportedPlane, Nv12Plane, Nv12SharedObjectLayout};

verus! {

/// One past the last byte of `rows` rows of `row_bytes` bytes.
pub open spec fn plane_end(plane: ImportedPlane, rows: int, row_bytes: int) -> int {
    plane.offset + plane.pitch * (if rows <= 0 {
        0
    } else {
        rows - 1
    }) + row_bytes
}

/// One past the last luma byte.
pub open spec fn luma_end(dimensions: (u32, u32), layout: Nv12SharedObjectLayout) -> int {
    plane_end(layout.planes[0], dimensions.1 as int, dimensions.0 as int)
}

/// One past the last chroma byte.
pub open spec fn chroma_end(dimensions: (u32, u32), layout: Nv12SharedObjectLayout) -> int {
    plane_end(layout.planes[1], dimensions.1 as int / 2, dimensions.0 as int)
}

/// One past the last byte of the frame. What lies behind it in the allocation is padding.
pub open spec fn frame_span(dimensions: (u32, u32), layout: Nv12SharedObjectLayout) -> int {
    if luma_end(dimensions, layout) >= chroma_end(dimensions, layout) {
        luma_end(dimensions, layout)
    } else {
        chroma_end(dimensions, layout)
    }
}

/// Both dimensions are positive and even.
pub open spec fn is_even_size(dimensions: (u32, u32)) -> bool {
    dimensions.0 > 0 && dimensions.1 > 0 && dimensions.0 % 2 == 0 && dimensions.1 % 2 == 0
}

/// The diagnostic for dimensions that are not positive and even.
pub open spec fn odd_size_text(dimensions: (u32, u32)) -> Seq<char> {
    "Vulkan NV12 requires positive even coded dimensions, got "@ + decimal(dimensions.0 as nat)
        + "x"@ + decimal(dimensions.1 as nat)
}

/// The planes do not share a byte.
pub open spec fn planes_are_disjoint(
    dimensions: (u32, u32),
    layout: Nv12SharedObjectLayout,
) -> bool {
    luma_end(dimensions, layout) <= layout.planes[1].offset || chroma_end(dimensions, layout)
        <= layout.planes[0].offset
}

/// The layout describes a biplanar frame inside its object.
pub open spec fn is_valid_layout(dimensions: (u32, u32), layout: Nv12SharedObjectLayout) -> bool {
    &&& is_even_size(dimensions)
    &&& layout.planes[0].pitch >= dimensions.0
    &&& layout.planes[1].pitch >= dimensions.0
    &&& layout.planes[1].pitch % 2 == 0
    &&& frame_span(dimensions, layout) <= layout.object_size
    &&& planes_are_disjoint(dimensions, layout)
}

/// What `validate_nv12_shared_layout` returns.
pub open spec fn layout_verdict(dimensions: (u32, u32), layout: Nv12SharedObjectLayout) -> Result<
    (),
    Seq<char>,
> {
    if !is_even_size(dimensions) {
        Err(odd_size_text(dimensions))
    } else if layout.planes[0].pitch < dimensions.0 || layout.planes[1].pitch < dimensions.0 {
        Err("Vulkan NV12 plane pitch must be at least coded width "@ + decimal(dimensions.0 as nat))
    } else if layout.planes[1].pitch % 2 != 0 {
        Err("Vulkan NV12 chroma pitch must be divisible by two bytes per texel"@)
    } else if frame_span(dimensions, layout) > u64::MAX {
        Err("Vulkan NV12 plane extent overflow"@)
    } else if frame_span(dimensions, layout) > layout.object_size {
        Err(
            "Vulkan NV12 planes exceed DMA-BUF object size "@ + decimal(layout.object_size as nat)
                + " (luma_end="@ + decimal(luma_end(dimensions, layout) as nat) + ", chroma_end="@
                + decimal(chroma_end(dimensions, layout) as nat) + ")"@,
        )
    } else if !planes_are_disjoint(dimensions, layout) {
        Err("Vulkan NV12 luma and chroma plane byte ranges overlap"@)
    } else {
        Ok(())
    }
}

fn end_of_plane(plane: ImportedPlane, rows: u32, row_bytes: u32) -> (end: Option<u64>)
    ensures
        end == (if plane_end(plane, rows as int, row_bytes as int) <= u64::MAX {
            Some(plane_end(plane, rows as int, row_bytes as int) as u64)
        } else {
            None
        }),
{
    let steps: u32 = rows.saturating_sub(1);
    assert(0 <= plane.pitch * steps <= 0xffff_ffff * 0xffff_ffff) by (nonlinear_arith)
        requires
            plane.pitch <= 0xffff_ffff,
            steps <= 0xffff_ffff,
    ;
    match plane.offset.checked_add(plane.pitch as u64 * steps as u64) {
        Some(last_row) => last_row.checked_add(row_bytes as u64),
        None => None,
    }
}

fn has_even_size(dimensions: (u32, u32)) -> (even: bool)
    ensures
        even == is_even_size(dimensions),
{
    dimensions.0 > 0 && dimensions.1 > 0 && dimensions.0 % 2 == 0 && dimensions.1 % 2 == 0
}

fn odd_size_message(dimensions: (u32, u32)) -> (message: String)
    ensures
        message@ == odd_size_text(dimensions),
{
    Message::new("Vulkan NV12 requires positive even coded dimensions, got ").number(
        dimensions.0 as u64,
    ).text("x").number(dimensions.1 as u64).done()
}

/// Checks that a layout describes a biplanar frame inside its object.
pub fn validate_nv12_shared_layout(
    dimensions: (u32, u32),
    layout: Nv12SharedObjectLayout,
) -> (result: Result<(), String>)
    ensures
        agrees(result, layout_verdict(dimensions, layout)),
        result is Ok <==> is_valid_layout(dimensions, layout),
{
    let (width, height): (u32, u32) = dimensions;
    if !has_even_size(dimensions) {
        return Err(odd_size_message(dimensions));
    }
    if layout.planes[0].pitch < width || layout.planes[1].pitch < width {
        return Err(
            Message::new("Vulkan NV12 plane pitch must be at least coded width ").number(
                width as u64,
            ).done(),
        );
    }
    if layout.planes[1].pitch % 2 != 0 {
        return Err(
            "Vulkan NV12 chroma pitch must be divisible by two bytes per texel".to_owned(),
        );
    }
    let luma: u64 = match end_of_plane(layout.planes[0], height, width) {
        Some(end) => end,
        None => return Err("Vulkan NV12 plane extent overflow".to_owned()),
    };
    let chroma: u64 = match end_of_plane(layout.planes[1], height / 2, width) {
        Some(end) => end,
        None => return Err("Vulkan NV12 plane extent overflow".to_owned()),
    };
    if luma > layout.object_size || chroma > layout.object_size {
        return Err(
            Message::new("Vulkan NV12 planes exceed DMA-BUF object size ").number(
                layout.object_size,
            ).text(" (luma_end=").number(luma).text(", chroma_end=").number(chroma).text(
                ")",
            ).done(),
        );
    }
    if !(luma <= layout.planes[1].offset || chroma <= layout.planes[0].offset) {
        return Err("Vulkan NV12 luma and chroma plane byte ranges overlap".to_owned());
    }
    Ok(())
}

/// What `validate_nv12_shared_object_topology` returns.
pub open spec fn topology_verdict(
    dimensions: (u32, u32),
    object_sizes: Seq<u64>,
    object_modifiers: Seq<Option<u64>>,
    planes: Seq<Nv12Plane>,
) -> Result<Nv12SharedObjectLayout, Seq<char>> {
    if !is_even_size(dimensions) {
        Err(odd_size_text(dimensions))
    } else if object_sizes.len() != 1 || object_modifiers.len() != 1 || planes.len() != 2 {
        Err(
            "Vulkan NV12 shared-object import requires exactly one object and two planes, got "@
                + decimal(object_sizes.len()) + " object size(s), "@ + decimal(
                object_modifiers.len(),
            ) + " modifier(s), and "@ + decimal(planes.len()) + " plane(s)"@,
        )
    } else if planes[0].object_index != 0 || planes[1].object_index != 0 {
        Err("Vulkan NV12 shared-object planes must both reference object zero"@)
    } else if object_modifiers[0] is None {
        Err("Vulkan NV12 requires an explicit DRM modifier; implicit modifier is unsupported"@)
    } else {
        let layout = Nv12SharedObjectLayout {
            modifier: object_modifiers[0]->0,
            object_size: object_sizes[0],
            planes: [
                ImportedPlane { offset: planes[0].offset, pitch: planes[0].pitch },
                ImportedPlane { offset: planes[1].offset, pitch: planes[1].pitch },
            ],
        };
        match layout_verdict(dimensions, layout) {
            Ok(()) => Ok(layout),
            Err(text) => Err(text),
        }
    }
}

/// The layout of a frame that is described by lists of objects and planes: one object with an
/// explicit modifier, and two planes in it.
pub fn validate_nv12_shared_object_topology(
    dimensions: (u32, u32),
    object_sizes: &[u64],
    object_modifiers: &[Option<u64>],
    planes: &[Nv12Plane],
) -> (result: Result<Nv12SharedObjectLayout, String>)
    ensures
        agrees(result, topology_verdict(dimensions, object_sizes@, object_modifiers@, planes@)),
        result matches Ok(layout) ==> is_valid_layout(dimensions, layout),
{
    if !has_even_size(dimensions) {
        return Err(odd_size_message(dimensions));
    }
    if object_sizes.len() != 1 || object_modifiers.len() != 1 || planes.len() != 2 {
        return Err(
            Message::new(
                "Vulkan NV12 shared-object import requires exactly one object and two planes, got ",
            ).number(object_sizes.len() as u64).text(" object size(s), ").number(
                object_modifiers.len() as u64,
            ).text(" modifier(s), and ").number(planes.len() as u64).text(" plane(s)").done(),
        );
    }
    if planes[0].object_index != 0 || planes[1].object_index != 0 {
        return Err(
            "Vulkan NV12 shared-object planes must both reference object zero".to_owned(),
        );
    }
    let modifier: u64 = match object_modifiers[0] {
        Some(modifier) => modifier,
        None => return Err(
            "Vulkan NV12 requires an explicit DRM modifier; implicit modifier is unsupported".to_owned(),
        ),
    };
    let layout = Nv12SharedObjectLayout {
        modifier,
        object_size: object_sizes[0],
        planes: [
            ImportedPlane { offset: planes[0].offset, pitch: planes[0].pitch },
            ImportedPlane { offset: planes[1].offset, pitch: planes[1].pitch },
        ],
    };
    match validate_nv12_shared_layout(dimensions, layout) {
        Ok(()) => Ok(layout),
        Err(message) => Err(message),
    }
}

/// What the span functions return.
pub open spec fn span_verdict(dimensions: (u32, u32), layout: Nv12SharedObjectLayout) -> Result<
    u64,
    Seq<char>,
> {
    if frame_span(dimensions, layout) > u64::MAX {
        Err("Vulkan NV12 plane extent overflow"@)
    } else {
        Ok(frame_span(dimensions, layout) as u64)
    }
}

fn span_of_frame(dimensions: (u32, u32), layout: Nv12SharedObjectLayout) -> (result: Result<
    u64,
    String,
>)
    ensures
        agrees(result, span_verdict(dimensions, layout)),
{
    let (width, height): (u32, u32) = dimensions;
    let luma: u64 = match end_of_plane(layout.planes[0], height, width) {
        Some(end) => end,
        None => return Err("Vulkan NV12 plane extent overflow".to_owned()),
    };
    let chroma: u64 = match end_of_plane(layout.planes[1], height / 2, width) {
        Some(end) => end,
        None => return Err("Vulkan NV12 plane extent overflow".to_owned()),
    };
    if luma >= chroma {
        Ok(luma)
    } else {
        Ok(chroma)
    }
}

/// How many bytes from the start of the object the copy regions of a frame reach. The padding
/// behind them is not copied.
pub fn nv12_transfer_source_span(
    dimensions: (u32, u32),
    layout: Nv12SharedObjectLayout,
) -> (result: Result<u64, String>)
    ensures
        agrees(result, span_verdict(dimensions, layout)),
{
    span_of_frame(dimensions, layout)
}

/// How many bytes from the start of the object a compute shader reads of a frame. The padding
/// behind them is not read.
pub fn nv12_compute_source_span(
    dimensions: (u32, u32),
    layout: Nv12SharedObjectLayout,
) -> (result: Result<u64, String>)
    ensures
        agrees(result, span_verdict(dimensions, layout)),
{
    span_of_frame(dimensions, layout)
}

/// How many bytes a shader can address.
pub const SHADER_ADDRESS_RANGE: u64 = 0x1_0000_0000;

/// `bytes`, rounded up to whole texels of four bytes.
pub open spec fn whole_texels(bytes: int) -> int {
    (bytes + 3) / 4 * 4
}

/// What `validate_staged_layout` returns.
pub open spec fn staged_layout_verdict(
    dimensions: (u32, u32),
    layout: Nv12SharedObjectLayout,
    max_texel_buffer_elements: u32,
) -> Result<u64, Seq<char>> {
    if layout.object_size % 4 != 0 {
        Err("Vulkan staged NV12 allocation size must be four-byte aligned for shader access"@)
    } else if frame_span(dimensions, layout) > u64::MAX {
        Err("Vulkan NV12 plane extent overflow"@)
    } else if frame_span(dimensions, layout) > SHADER_ADDRESS_RANGE {
        Err("Vulkan staged NV12 visible span exceeds the shader's 32-bit byte-address range"@)
    } else if whole_texels(frame_span(dimensions, layout)) / 4 > max_texel_buffer_elements {
        Err(
            "Vulkan staged NV12 allocation requires "@ + decimal(
                (whole_texels(frame_span(dimensions, layout)) / 4) as nat,
            ) + " R32 texels, exceeding maxTexelBufferElements "@ + decimal(
                max_texel_buffer_elements as nat,
            ),
        )
    } else {
        Ok(whole_texels(frame_span(dimensions, layout)) as u64)
    }
}

/// Checks that a compute shader can address every byte of a frame, and returns how many bytes its
/// view of the source covers: the frame without the padding behind it, in whole texels.
pub fn validate_staged_layout(
    dimensions: (u32, u32),
    layout: Nv12SharedObjectLayout,
    max_texel_buffer_elements: u32,
) -> (result: Result<u64, String>)
    ensures
        agrees(result, staged_layout_verdict(dimensions, layout, max_texel_buffer_elements)),
{
    if layout.object_size % 4 != 0 {
        return Err(
            "Vulkan staged NV12 allocation size must be four-byte aligned for shader access".to_owned(),
        );
    }
    let span: u64 = match nv12_compute_source_span(dimensions, layout) {
        Ok(span) => span,
        Err(message) => return Err(message),
    };
    if span > SHADER_ADDRESS_RANGE {
        return Err(
            "Vulkan staged NV12 visible span exceeds the shader's 32-bit byte-address range".to_owned(),
        );
    }
    let texels: u64 = (span + 3) / 4;
    if texels > max_texel_buffer_elements as u64 {
        return Err(
            Message::new("Vulkan staged NV12 allocation requires ").number(texels).text(
                " R32 texels, exceeding maxTexelBufferElements ",
            ).number(max_texel_buffer_elements as u64).done(),
        );
    }
    Ok(texels * 4)
}

/// What `validate_transfer_layout` returns.
pub open spec fn transfer_layout_verdict(
    dimensions: (u32, u32),
    layout: Nv12SharedObjectLayout,
) -> Result<(), Seq<char>> {
    if layout_verdict(dimensions, layout) is Err {
        layout_verdict(dimensions, layout)
    } else if layout.planes[0].offset % 4 != 0 || layout.planes[1].offset % 4 != 0 {
        Err("Vulkan NV12 transfer plane offsets must be four-byte aligned"@)
    } else {
        Ok(())
    }
}

/// Checks that a frame can be copied with transfer commands.
pub fn validate_transfer_layout(
    dimensions: (u32, u32),
    layout: Nv12SharedObjectLayout,
) -> (result: Result<(), String>)
    ensures
        agrees(result, transfer_layout_verdict(dimensions, layout)),
{
    match validate_nv12_shared_layout(dimensions, layout) {
        Ok(()) => {},
        Err(message) => return Err(message),
    }
    if layout.planes[0].offset % 4 != 0 || layout.planes[1].offset % 4 != 0 {
        return Err("Vulkan NV12 transfer plane offsets must be four-byte aligned".to_owned());
    }
    Ok(())
}

/// How many bytes one row of a packed image has.
pub open spec fn packed_row_bytes(dimensions: (u32, u32)) -> int {
    dimensions.0 * 4
}

/// One past the last byte of a packed image.
pub open spec fn packed_span(dimensions: (u32, u32), plane: ImportedPlane) -> int {
    plane_end(plane, dimensions.1 as int, packed_row_bytes(dimensions))
}

/// What `check_packed_layout` returns.
pub open spec fn packed_layout_verdict(
    dimensions: (u32, u32),
    source_size: u64,
    plane: ImportedPlane,
) -> Result<(), ImportFault> {
    if source_size == 0 {
        Err(ImportFault::Other("Vulkan packed import has a zero allocation size"@))
    } else if plane.pitch < packed_row_bytes(dimensions) {
        Err(
            ImportFault::Other(
                "Vulkan packed image pitch "@ + decimal(plane.pitch as nat)
                    + " is smaller than row size "@ + decimal(packed_row_bytes(dimensions) as nat),
            ),
        )
    } else if packed_span(dimensions, plane) > u64::MAX {
        Err(ImportFault::Other("Vulkan packed image extent overflow"@))
    } else if packed_span(dimensions, plane) > source_size {
        Err(
            ImportFault::AllocationSize(
                "DMA-BUF object size "@ + decimal(source_size as nat)
                    + " is smaller than packed image span "@ + decimal(
                    packed_span(dimensions, plane) as nat,
                ),
            ),
        )
    } else {
        Ok(())
    }
}

/// Checks that a packed image lies inside its allocation.
pub fn check_packed_layout(
    dimensions: (u32, u32),
    source_size: u64,
    plane: ImportedPlane,
) -> (result: Result<(), VulkanImportError>)
    ensures
        imports(result, packed_layout_verdict(dimensions, source_size, plane)),
{
    if source_size == 0 {
        return Err(
            VulkanImportError::Other("Vulkan packed import has a zero allocation size".to_owned()),
        );
    }
    let row_bytes: u64 = dimensions.0 as u64 * 4;
    if (plane.pitch as u64) < row_bytes {
        return Err(
            VulkanImportError::Other(
                Message::new("Vulkan packed image pitch ").number(plane.pitch as u64).text(
                    " is smaller than row size ",
                ).number(row_bytes).done(),
            ),
        );
    }
    let steps: u32 = dimensions.1.saturating_sub(1);
    assert(0 <= plane.pitch * steps <= 0xffff_ffff * 0xffff_ffff) by (nonlinear_arith)
        requires
            plane.pitch <= 0xffff_ffff,
            steps <= 0xffff_ffff,
    ;
    let span: Option<u64> = match plane.offset.checked_add(plane.pitch as u64 * steps as u64) {
        Some(last_row) => last_row.checked_add(row_bytes),
        None => None,
    };
    let required: u64 = match span {
        Some(required) => required,
        None => return Err(
            VulkanImportError::Other("Vulkan packed image extent overflow".to_owned()),
        ),
    };
    if required > source_size {
        return Err(
            VulkanImportError::AllocationSize(
                Message::new("DMA-BUF object size ").number(source_size).text(
                    " is smaller than packed image span ",
                ).number(required).done(),
            ),
        );
    }
    Ok(())
}

/// Checks that a packed image lies inside its allocation, and says why not as text.
pub fn validate_packed_layout(
    dimensions: (u32, u32),
    source_size: u64,
    plane: ImportedPlane,
) -> (result: Result<(), String>)
    ensures
        match (result, packed_layout_verdict(dimensions, source_size, plane)) {
            (Ok(()), Ok(())) => true,
            (Err(message), Err(fault)) => message@ == fault.text(),
            _ => false,
        },
{
    match check_packed_layout(dimensions, source_size, plane) {
        Ok(()) => Ok(()),
        Err(error) => Err(error.message()),
    }
}

/// What `validate_staged_packed_layout` returns.
pub open spec fn staged_packed_verdict(source_size: u64, max_texel_buffer_elements: u32) -> Result<
    (),
    ImportFault,
> {
    if source_size % 4 != 0 {
        Err(
            ImportFault::AllocationSize(
                "Vulkan staged packed allocation size must be four-byte aligned for shader access"@,
            ),
        )
    } else if source_size > SHADER_ADDRESS_RANGE {
        Err(
            ImportFault::AllocationSize(
                "Vulkan staged packed allocation exceeds the shader's 32-bit byte-address range"@,
            ),
        )
    } else if source_size / 4 > max_texel_buffer_elements {
        Err(
            ImportFault::AllocationSize(
                "Vulkan staged packed allocation requires "@ + decimal((source_size / 4) as nat)
                    + " R32 texels, exceeding maxTexelBufferElements "@ + decimal(
                    max_texel_buffer_elements as nat,
                ),
            ),
        )
    } else {
        Ok(())
    }
}

/// Checks that a compute shader can address every byte of a packed allocation.
pub fn validate_staged_packed_layout(
    source_size: u64,
    max_texel_buffer_elements: u32,
) -> (result: Result<(), VulkanImportError>)
    ensures
        imports(result, staged_packed_verdict(source_size, max_texel_buffer_elements)),
{
    if source_size % 4 != 0 {
        return Err(
            VulkanImportError::AllocationSize(
                "Vulkan staged packed allocation size must be four-byte aligned for shader access".to_owned(),
            ),
        );
    }
    if source_size > SHADER_ADDRESS_RANGE {
        return Err(
            VulkanImportError::AllocationSize(
                "Vulkan staged packed allocation exceeds the shader's 32-bit byte-address range".to_owned(),
            ),
        );
    }
    let texels: u64 = source_size / 4;
    if texels > max_texel_buffer_elements as u64 {
        return Err(
            VulkanImportError::AllocationSize(
                Message::new("Vulkan staged packed allocation requires ").number(texels).text(
                    " R32 texels, exceeding maxTexelBufferElements ",
                ).number(max_texel_buffer_elements as u64).done(),
            ),
        );
    }
    Ok(())
}

/// What `validate_image_inputs` returns.
pub open spec fn image_inputs_verdict(
    dimensions: (u32, u32),
    source_fd: i32,
    plane: ImportedPlane,
) -> Result<(), Seq<char>> {
    if dimensions.0 == 0 || dimensions.1 == 0 {
        Err("Vulkan imported image dimensions must be non-zero"@)
    } else if source_fd < 0 {
        Err("Vulkan imported image has an invalid DMA-BUF fd"@)
    } else if plane.pitch == 0 {
        Err("Vulkan imported image has a zero row pitch"@)
    } else {
        Ok(())
    }
}

/// Checks what every image import needs.
pub fn validate_image_inputs(
    dimensions: (u32, u32),
    source_fd: i32,
    plane: ImportedPlane,
) -> (result: Result<(), String>)
    ensures
        agrees(result, image_inputs_verdict(dimensions, source_fd, plane)),
{
    if dimensions.0 == 0 || dimensions.1 == 0 {
        return Err("Vulkan imported image dimensions must be non-zero".to_owned());
    }
    if source_fd < 0 {
        return Err("Vulkan imported image has an invalid DMA-BUF fd".to_owned());
    }
    if plane.pitch == 0 {
        return Err("Vulkan imported image has a zero row pitch".to_owned());
    }
    Ok(())
}

/// No byte of a valid frame lies in both planes, and none lies outside the object.
pub proof fn valid_planes_share_no_byte_and_stay_inside_the_object(
    dimensions: (u32, u32),
    layout: Nv12SharedObjectLayout,
    luma_row: int,
    luma_column: int,
    chroma_row: int,
    chroma_column: int,
)
    requires
        is_valid_layout(dimensions, layout),
        0 <= luma_row < dimensions.1,
        0 <= luma_column < dimensions.0,
        0 <= chroma_row < dimensions.1 / 2,
        0 <= chroma_column < dimensions.0,
    ensures
        ({
            let luma = layout.planes[0].offset + layout.planes[0].pitch * luma_row + luma_column;
            let chroma = layout.planes[1].offset + layout.planes[1].pitch * chroma_row
                + chroma_column;
            &&& 0 <= luma < layout.object_size
            &&& 0 <= chroma < layout.object_size
            &&& luma != chroma
        }),
{
    let luma_pitch = layout.planes[0].pitch as int;
    let chroma_pitch = layout.planes[1].pitch as int;
    let luma_rows = dimensions.1 as int;
    let chroma_rows = dimensions.1 as int / 2;
    assert(0 <= luma_pitch * luma_row <= luma_pitch * (luma_rows - 1)) by (nonlinear_arith)
        requires
            0 <= luma_pitch,
            0 <= luma_row <= luma_rows - 1,
    ;
    assert(0 <= chroma_pitch * chroma_row <= chroma_pitch * (chroma_rows - 1)) by (nonlinear_arith)
        requires
            0 <= chroma_pitch,
            0 <= chroma_row <= chroma_rows - 1,
    ;
}

/// The copied span of a valid frame ends inside the allocation: what lies between is padding.
pub proof fn copied_span_ends_inside_the_allocation(
    dimensions: (u32, u32),
    layout: Nv12SharedObjectLayout,
)
    requires
        is_valid_layout(dimensions, layout),
    ensures
        span_verdict(dimensions, layout) matches Ok(span) && 0 < span <= layout.object_size,
{
    let rows = dimensions.1 as int - 1;
    assert(layout.planes[0].pitch * rows >= 0) by (nonlinear_arith)
        requires
            rows >= 0,
    ;
}

/// A compute view of a valid frame is aligned, covers the frame and ends inside the allocation.
pub proof fn compute_view_covers_the_frame(
    dimensions: (u32, u32),
    layout: Nv12SharedObjectLayout,
    max_texel_buffer_elements: u32,
)
    requires
        is_valid_layout(dimensions, layout),
        staged_layout_verdict(dimensions, layout, max_texel_buffer_elements) is Ok,
    ensures
        staged_layout_verdict(dimensions, layout, max_texel_buffer_elements) matches Ok(range) && {
            &&& range % 4 == 0
            &&& frame_span(dimensions, layout) <= range <= layout.object_size
            &&& range <= SHADER_ADDRESS_RANGE
            &&& range / 4 <= max_texel_buffer_elements
        },
{
}

/// Every byte of an admitted packed image lies inside its allocation, and no two lie at the same
/// place.
pub proof fn packed_pixels_stay_inside_the_allocation(
    dimensions: (u32, u32),
    source_size: u64,
    plane: ImportedPlane,
    row: int,
    column: int,
    other_row: int,
    other_column: int,
)
    requires
        packed_layout_verdict(dimensions, source_size, plane) is Ok,
        0 <= row < dimensions.1,
        0 <= other_row < dimensions.1,
        0 <= column < packed_row_bytes(dimensions),
        0 <= other_column < packed_row_bytes(dimensions),
    ensures
        ({
            let byte = plane.offset + plane.pitch * row + column;
            let other_byte = plane.offset + plane.pitch * other_row + other_column;
            &&& 0 <= byte < source_size
            &&& byte == other_byte ==> row == other_row && column == other_column
        }),
{
    let pitch = plane.pitch as int;
    let rows = dimensions.1 as int;
    assert(0 <= pitch * row <= pitch * (rows - 1)) by (nonlinear_arith)
        requires
            0 <= pitch,
            0 <= row <= rows - 1,
    ;
    assert(row < other_row ==> pitch * row + pitch <= pitch * other_row) by (nonlinear_arith)
        requires
            0 <= pitch,
    ;
    assert(other_row < row ==> pitch * other_row + pitch <= pitch * row) by (nonlinear_arith)
        requires
            0 <= pitch,
    ;
}

} // verus!
