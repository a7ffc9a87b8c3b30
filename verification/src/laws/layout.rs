//! What holds of memory layouts, whatever frame they are for.

use vstd::prelude::*;

use crate::vulkan::error::VulkanImportError;
use crate::vulkan::layout::{
    check_packed_layout, nv12_compute_source_span, nv12_transfer_source_span, validate_image_inputs,
    validate_nv12_shared_layout, validate_nv12_shared_object_topology, validate_packed_layout,
    validate_staged_layout, validate_staged_packed_layout, validate_transfer_layout,
};
use crate::vulkan::record::{
    nv12_multiplanar_transfer_regions, nv12_separate_transfer_regions, BufferImageCopy,
};
use crate::vulkan::image::StagedTransferPlan;
use crate::vulkan::types::{ImportedPlane, Nv12FrameTopology, Nv12Plane, Nv12SharedObjectLayout};

verus! {

/// The byte of a plane in column `column` of row `row`.
pub open spec fn byte_of(plane: ImportedPlane, row: int, column: int) -> int {
    plane.offset + plane.pitch * row + column
}

/// A biplanar layout is accepted if and only if the frame has an even size, rows are as long as the
/// frame is wide, chroma rows are made of whole pairs, the last byte of each plane lies in the
/// object, and one plane ends before the other begins.
pub proof fn layouts_are_accepted_where_the_planes_fit(
    dimensions: (u32, u32),
    layout: Nv12SharedObjectLayout,
    result: Result<(), String>,
)
    requires
        call_ensures(validate_nv12_shared_layout, (dimensions, layout), result),
    ensures
        result is Ok <==> {
            let (luma, chroma) = (layout.planes[0], layout.planes[1]);
            let last_luma = byte_of(luma, dimensions.1 - 1, dimensions.0 - 1);
            let last_chroma = byte_of(chroma, dimensions.1 / 2 - 1, dimensions.0 - 1);
            &&& dimensions.0 > 0 && dimensions.1 > 0
            &&& dimensions.0 % 2 == 0 && dimensions.1 % 2 == 0
            &&& luma.pitch >= dimensions.0 && chroma.pitch >= dimensions.0
            &&& chroma.pitch % 2 == 0
            &&& last_luma < layout.object_size && last_chroma < layout.object_size
            &&& last_luma < chroma.offset || last_chroma < luma.offset
        },
{
}

/// Every byte of an accepted biplanar frame lies in the object, and no two of its bytes share a
/// place, whichever plane they are of.
pub proof fn bytes_of_accepted_layouts_are_apart(
    dimensions: (u32, u32),
    layout: Nv12SharedObjectLayout,
    row: int,
    column: int,
    other_row: int,
    other_column: int,
    chroma_row: int,
    chroma_column: int,
)
    requires
        call_ensures(validate_nv12_shared_layout, (dimensions, layout), Ok(())),
        0 <= row < dimensions.1,
        0 <= column < dimensions.0,
        0 <= other_row < dimensions.1,
        0 <= other_column < dimensions.0,
        0 <= chroma_row < dimensions.1 / 2,
        0 <= chroma_column < dimensions.0,
    ensures
        0 <= byte_of(layout.planes[0], row, column) < layout.object_size,
        0 <= byte_of(layout.planes[1], chroma_row, chroma_column) < layout.object_size,
        byte_of(layout.planes[0], row, column) != byte_of(
            layout.planes[1],
            chroma_row,
            chroma_column,
        ),
        (row, column) != (other_row, other_column) ==> byte_of(layout.planes[0], row, column)
            != byte_of(layout.planes[0], other_row, other_column),
{
    let luma_pitch = layout.planes[0].pitch as int;
    let chroma_pitch = layout.planes[1].pitch as int;
    let rows = dimensions.1 as int;
    let half = rows / 2;
    let width = dimensions.0 as int;
    assert(0 <= luma_pitch * row <= luma_pitch * (rows - 1)) by (nonlinear_arith)
        requires
            0 <= row <= rows - 1,
            0 <= luma_pitch,
    ;
    assert(0 <= chroma_pitch * chroma_row <= chroma_pitch * (half - 1)) by (nonlinear_arith)
        requires
            0 <= chroma_row <= half - 1,
            0 <= chroma_pitch,
    ;
    if row < other_row {
        assert(luma_pitch * row + width <= luma_pitch * other_row) by (nonlinear_arith)
            requires
                row + 1 <= other_row,
                0 < width <= luma_pitch,
        ;
    }
    if other_row < row {
        assert(luma_pitch * other_row + width <= luma_pitch * row) by (nonlinear_arith)
            requires
                other_row + 1 <= row,
                0 < width <= luma_pitch,
        ;
    }
}

/// A frame's objects and planes make a layout if and only if there is one object with an explicit
/// modifier, two planes in it, and the layout that they make is accepted; it is then made of exactly
/// those.
pub proof fn topologies_make_the_layout_they_show(
    dimensions: (u32, u32),
    sizes: &[u64],
    modifiers: &[Option<u64>],
    planes: &[Nv12Plane],
    result: Result<Nv12SharedObjectLayout, String>,
    layout: Nv12SharedObjectLayout,
    accepted: Result<(), String>,
)
    requires
        call_ensures(
            validate_nv12_shared_object_topology,
            (dimensions, sizes, modifiers, planes),
            result,
        ),
        call_ensures(validate_nv12_shared_layout, (dimensions, layout), accepted),
        sizes@.len() == 1 ==> layout.object_size == sizes@[0],
        modifiers@.len() == 1 ==> (modifiers@[0] matches Some(modifier) ==> layout.modifier
            == modifier),
        planes@.len() == 2 ==> layout.planes[0] == (ImportedPlane {
            offset: planes@[0].offset,
            pitch: planes@[0].pitch,
        }) && layout.planes[1] == (ImportedPlane {
            offset: planes@[1].offset,
            pitch: planes@[1].pitch,
        }),
    ensures
        result is Ok <==> {
            &&& sizes@.len() == 1 && modifiers@.len() == 1 && planes@.len() == 2
            &&& planes@[0].object_index == 0 && planes@[1].object_index == 0
            &&& modifiers@[0] is Some
            &&& accepted is Ok
        },
        result matches Ok(made) ==> {
            &&& made.object_size == sizes@[0]
            &&& modifiers@[0] == Some(made.modifier)
            &&& made.planes[0].offset == planes@[0].offset && made.planes[0].pitch
                == planes@[0].pitch
            &&& made.planes[1].offset == planes@[1].offset && made.planes[1].pitch
                == planes@[1].pitch
        },
{
    if planes@.len() == 2 && sizes@.len() == 1 && modifiers@.len() == 1 && modifiers@[0] is Some {
        let made = Nv12SharedObjectLayout {
            modifier: modifiers@[0]->0,
            object_size: sizes@[0],
            planes: [
                ImportedPlane { offset: planes@[0].offset, pitch: planes@[0].pitch },
                ImportedPlane { offset: planes@[1].offset, pitch: planes@[1].pitch },
            ],
        };
        assert(made.planes@ =~= layout.planes@);
        assert(made.planes =~= layout.planes);
        assert(made == layout);
    }
}

/// A layout and the topology that it gives say the same.
pub proof fn layouts_give_their_own_topology(
    layout: Nv12SharedObjectLayout,
    dimensions: (u32, u32),
    topology: Nv12FrameTopology,
    other: Nv12FrameTopology,
    same: bool,
)
    requires
        call_ensures(Nv12SharedObjectLayout::frame_topology, (layout, dimensions), topology),
        call_ensures(Nv12FrameTopology::same_as, (&topology, &other), same),
    ensures
        topology.dimensions == dimensions,
        topology.object_count == 1 && topology.plane_count == 2,
        topology.object_size == layout.object_size && topology.modifier == layout.modifier,
        topology.planes[0].object_index == 0 && topology.planes[1].object_index == 0,
        topology.planes[0].offset == layout.planes[0].offset && topology.planes[0].pitch
            == layout.planes[0].pitch,
        topology.planes[1].offset == layout.planes[1].offset && topology.planes[1].pitch
            == layout.planes[1].pitch,
        same <==> {
            &&& topology.dimensions == other.dimensions
            &&& topology.object_count == other.object_count && topology.object_size
                == other.object_size
            &&& topology.plane_count == other.plane_count && topology.modifier == other.modifier
            &&& topology.planes[0] == other.planes[0] && topology.planes[1] == other.planes[1]
        },
{
    if topology.planes[0] == other.planes[0] && topology.planes[1] == other.planes[1] {
        assert(topology.planes =~= other.planes);
    }
}

/// The span that is copied of an accepted frame ends with its last byte: every byte of both planes
/// lies in it, one of them at its end. Both ways of staging copy the same span.
pub proof fn spans_end_with_the_last_byte(
    dimensions: (u32, u32),
    layout: Nv12SharedObjectLayout,
    transfer: Result<u64, String>,
    compute: Result<u64, String>,
    row: int,
    column: int,
    chroma_row: int,
    chroma_column: int,
)
    requires
        call_ensures(validate_nv12_shared_layout, (dimensions, layout), Ok(())),
        call_ensures(nv12_transfer_source_span, (dimensions, layout), transfer),
        call_ensures(nv12_compute_source_span, (dimensions, layout), compute),
        0 <= row < dimensions.1,
        0 <= column < dimensions.0,
        0 <= chroma_row < dimensions.1 / 2,
        0 <= chroma_column < dimensions.0,
    ensures
        transfer is Ok && compute is Ok,
        transfer->Ok_0 == compute->Ok_0,
        0 < transfer->Ok_0 <= layout.object_size,
        byte_of(layout.planes[0], row, column) < transfer->Ok_0,
        byte_of(layout.planes[1], chroma_row, chroma_column) < transfer->Ok_0,
        transfer->Ok_0 - 1 == byte_of(layout.planes[0], dimensions.1 - 1, dimensions.0 - 1)
            || transfer->Ok_0 - 1 == byte_of(
            layout.planes[1],
            dimensions.1 / 2 - 1,
            dimensions.0 - 1,
        ),
{
    bytes_of_accepted_layouts_are_apart(
        dimensions,
        layout,
        row,
        column,
        row,
        column,
        chroma_row,
        chroma_column,
    );
    let luma_pitch = layout.planes[0].pitch as int;
    let chroma_pitch = layout.planes[1].pitch as int;
    let rows = dimensions.1 as int;
    let half = rows / 2;
    assert(0 <= luma_pitch * row <= luma_pitch * (rows - 1)) by (nonlinear_arith)
        requires
            0 <= row <= rows - 1,
            0 <= luma_pitch,
    ;
    assert(0 <= chroma_pitch * chroma_row <= chroma_pitch * (half - 1)) by (nonlinear_arith)
        requires
            0 <= chroma_row <= half - 1,
            0 <= chroma_pitch,
    ;
}

/// What a shader reads of a frame is the frame rounded up to whole words; it is admitted if and only
/// if the allocation is made of whole words, the frame can be addressed with thirty-two bits, and
/// the words are no more than the device allows.
pub proof fn staged_frames_are_read_in_whole_words(
    dimensions: (u32, u32),
    layout: Nv12SharedObjectLayout,
    limit: u32,
    span: Result<u64, String>,
    result: Result<u64, String>,
)
    requires
        call_ensures(nv12_compute_source_span, (dimensions, layout), span),
        call_ensures(validate_staged_layout, (dimensions, layout, limit), result),
    ensures
        result is Ok <==> {
            &&& layout.object_size % 4 == 0
            &&& span is Ok
            &&& span->Ok_0 <= 0x1_0000_0000
            &&& span->Ok_0 <= 4 * limit
        },
        result matches Ok(range) ==> range % 4 == 0 && span->Ok_0 <= range < span->Ok_0 + 4,
{
}

/// A copy is admitted if and only if the layout is, and both planes begin at whole words.
pub proof fn copies_begin_at_whole_words(
    dimensions: (u32, u32),
    layout: Nv12SharedObjectLayout,
    accepted: Result<(), String>,
    result: Result<(), String>,
)
    requires
        call_ensures(validate_nv12_shared_layout, (dimensions, layout), accepted),
        call_ensures(validate_transfer_layout, (dimensions, layout), result),
    ensures
        result is Ok <==> accepted is Ok && layout.planes[0].offset % 4 == 0
            && layout.planes[1].offset % 4 == 0,
        accepted is Err ==> result is Err && result->Err_0@ == accepted->Err_0@,
{
}

/// A packed layout is accepted if and only if the allocation has a size, rows hold four bytes for
/// every pixel, and the last byte of the last row lies in the allocation. Only an image that does
/// not fit is a fault of the allocation's size.
pub proof fn packed_layouts_are_accepted_where_the_rows_fit(
    dimensions: (u32, u32),
    source_size: u64,
    plane: ImportedPlane,
    result: Result<(), VulkanImportError>,
    plain: Result<(), String>,
)
    requires
        call_ensures(check_packed_layout, (dimensions, source_size, plane), result),
        call_ensures(validate_packed_layout, (dimensions, source_size, plane), plain),
    ensures
        ({
            let last_row = if dimensions.1 == 0 {
                0
            } else {
                dimensions.1 - 1
            };
            let end = byte_of(plane, last_row, 4 * dimensions.0);
            &&& result is Ok <==> source_size > 0 && plane.pitch >= 4 * dimensions.0 && end
                <= source_size
            &&& plain is Ok <==> result is Ok
            &&& result matches Err(error) ==> (error is AllocationSize <==> source_size > 0
                && plane.pitch >= 4 * dimensions.0 && source_size < end <= 0xffff_ffff_ffff_ffff)
            &&& result matches Err(error) ==> error is AllocationSize || error is Other
        }),
{
}

/// Every byte of an accepted packed image lies in the allocation, and no two share a place.
pub proof fn pixels_of_accepted_packed_layouts_are_apart(
    dimensions: (u32, u32),
    source_size: u64,
    plane: ImportedPlane,
    row: int,
    column: int,
    other_row: int,
    other_column: int,
)
    requires
        call_ensures(validate_packed_layout, (dimensions, source_size, plane), Ok(())),
        0 <= row < dimensions.1,
        0 <= column < 4 * dimensions.0,
        0 <= other_row < dimensions.1,
        0 <= other_column < 4 * dimensions.0,
    ensures
        0 <= byte_of(plane, row, column) < source_size,
        (row, column) != (other_row, other_column) ==> byte_of(plane, row, column) != byte_of(
            plane,
            other_row,
            other_column,
        ),
{
    let pitch = plane.pitch as int;
    let rows = dimensions.1 as int;
    let width = 4 * dimensions.0;
    assert(0 <= pitch * row <= pitch * (rows - 1)) by (nonlinear_arith)
        requires
            0 <= row <= rows - 1,
            0 <= pitch,
    ;
    if row < other_row {
        assert(pitch * row + width <= pitch * other_row) by (nonlinear_arith)
            requires
                row + 1 <= other_row,
                0 < width <= pitch,
        ;
    }
    if other_row < row {
        assert(pitch * other_row + width <= pitch * row) by (nonlinear_arith)
            requires
                other_row + 1 <= row,
                0 < width <= pitch,
        ;
    }
}

/// A packed allocation can be staged if and only if it is made of whole words that thirty-two bits
/// address and that are no more than the device allows; every refusal is about its size.
pub proof fn staged_packed_allocations_are_whole_words(
    source_size: u64,
    limit: u32,
    result: Result<(), VulkanImportError>,
)
    requires
        call_ensures(validate_staged_packed_layout, (source_size, limit), result),
    ensures
        result is Ok <==> source_size % 4 == 0 && source_size <= 0x1_0000_0000 && source_size <= 4
            * limit,
        result matches Err(error) ==> error is AllocationSize,
{
}

/// An image can be imported only if it has an area, a file descriptor and rows.
pub proof fn images_have_area_descriptor_and_rows(
    dimensions: (u32, u32),
    source_fd: i32,
    plane: ImportedPlane,
    result: Result<(), String>,
)
    requires
        call_ensures(validate_image_inputs, (dimensions, source_fd, plane), result),
    ensures
        result is Ok <==> dimensions.0 > 0 && dimensions.1 > 0 && source_fd >= 0 && plane.pitch > 0,
{
}

/// A copy reads every texel of an admitted frame from the byte at which the frame has it: bytes of
/// luma, pairs of chroma bytes, in the size of each plane.
pub proof fn copies_read_the_frame(
    plan: StagedTransferPlan,
    layout: Nv12SharedObjectLayout,
    separate: [BufferImageCopy; 2],
    together: [BufferImageCopy; 2],
    row: int,
    column: int,
)
    requires
        call_ensures(validate_transfer_layout, (plan.dimensions, layout), Ok(())),
        plan.planes == layout.planes,
        call_ensures(nv12_separate_transfer_regions, (plan,), separate),
        call_ensures(nv12_multiplanar_transfer_regions, (plan,), together),
    ensures
        separate[0].width == plan.dimensions.0 && separate[0].height == plan.dimensions.1,
        2 * separate[1].width == plan.dimensions.0 && 2 * separate[1].height == plan.dimensions.1,
        separate[0].buffer_offset + row * separate[0].buffer_row_length + column == byte_of(
            layout.planes[0],
            row,
            column,
        ),
        separate[1].buffer_offset + 2 * (row * separate[1].buffer_row_length + column) == byte_of(
            layout.planes[1],
            row,
            2 * column,
        ),
        separate[0].aspect == 0x1 && separate[1].aspect == 0x1,
        together[0].aspect == 0x10 && together[1].aspect == 0x20,
        together[0] == (BufferImageCopy { aspect: 0x10, ..separate[0] }),
        together[1] == (BufferImageCopy { aspect: 0x20, ..separate[1] }),
{
    let pitch = layout.planes[1].pitch as int;
    assert(2 * (row * (pitch / 2) + column) == pitch * row + 2 * column) by (nonlinear_arith)
        requires
            pitch % 2 == 0,
    ;
    let luma = layout.planes[0].pitch as int;
    assert(row * luma == luma * row) by (nonlinear_arith);
    assert(separate@[0] == separate[0] && separate@[1] == separate[1]);
    assert(together@[0] == together[0] && together@[1] == together[1]);
}

} // verus!
