//! What holds of frames, stream formats and probes, whatever they are given.

use vstd::prelude::*;

use crate::dmabuf::{
    is_referenced, layer_fault, layers_fault, object_fault, objects_fault, plane_fault,
    planes_fault, unreferenced_object, Descriptor, DescriptorView, Duplication, LayerView, Object,
    OwnedDescriptor, Plane,
};
use crate::error::{DmaBufAllocationSizeError, DuplicateError, ValidationError};
use crate::format::{Format, FormatValidationError, ModifierPolicy, StorageFormat};
use crate::frame::{BinaryStorage, FrameDescriptor, OwnedFrame, OwnedStorage, Storage};
use crate::geometry::Rect;
use crate::modifier::Modifier;
use crate::probe::{
    dmabuf_allocation_size, evaluate_probe, probe_dmabuf, DmaBufProbe, DmaBufStat, ProbeStep,
    SeekTarget,
};
use crate::schema::{
    admits_another_entry, decode_modifier, decode_modifier_policy, encode_modifier,
    encode_modifier_policy, SchemaValue,
};
use crate::sync_file::{AcquireSync, OwnedAcquireSync, SyncFile};

verus! {

/// A visible rectangle is accepted if and only if it has an area and lies inside a coded frame that
/// has one.
pub proof fn rectangles_lie_inside_the_coded_frame(
    rect: Rect,
    coded_width: u32,
    coded_height: u32,
    result: Result<(), ValidationError>,
)
    requires
        call_ensures(Rect::validate, (&rect, coded_width, coded_height), result),
    ensures
        result is Ok <==> (coded_width > 0 && coded_height > 0 && rect.width > 0 && rect.height > 0
            && rect.x + rect.width <= coded_width && rect.y + rect.height <= coded_height),
{
}

/// What the fault of a rectangle says is true.
pub proof fn rectangle_faults_are_true(
    rect: Rect,
    coded_width: u32,
    coded_height: u32,
    result: Result<(), ValidationError>,
)
    requires
        call_ensures(Rect::validate, (&rect, coded_width, coded_height), result),
    ensures
        match result {
            Ok(()) => true,
            Err(ValidationError::ZeroCodedSize { width, height }) => width * height == 0 && width
                == coded_width && height == coded_height,
            Err(ValidationError::ZeroVisibleSize { width, height }) => width * height == 0 && width
                == rect.width && height == rect.height,
            Err(ValidationError::VisibleRectOverflow) => rect.x + rect.width > 0xffff_ffff || rect.y
                + rect.height > 0xffff_ffff,
            Err(
                ValidationError::VisibleRectOutOfBounds {
                    x,
                    y,
                    width,
                    height,
                    coded_width: columns,
                    coded_height: rows,
                },
            ) => {
                &&& x + width > columns || y + height > rows
                &&& x + width <= 0xffff_ffff && y + height <= 0xffff_ffff
                &&& (x, y, width, height) == (rect.x, rect.y, rect.width, rect.height)
                &&& (columns, rows) == (coded_width, coded_height)
            },
            Err(_) => false,
        },
{
    assert(0 * coded_height == 0 && coded_width * 0 == 0) by (nonlinear_arith);
    assert(0 * rect.height == 0 && rect.width * 0 == 0) by (nonlinear_arith);
}

/// A frame of bytes is accepted only if it has one plane with rows of at least a byte, every row of
/// the coded frame starts inside the bytes, and nothing has to be waited for.
pub proof fn accepted_bytes_hold_every_row(
    frame: FrameDescriptor,
    result: Result<(), ValidationError>,
    row: int,
)
    requires
        call_ensures(FrameDescriptor::validate, (&frame,), result),
        0 <= row < frame.coded_height,
    ensures
        frame.storage matches Storage::Binary(storage) ==> result is Ok ==> {
            &&& storage.planes@.len() == 1
            &&& storage.planes@[0].stride > 0
            &&& storage.planes@[0].offset + storage.planes@[0].stride * row < storage.data@.len()
            &&& frame.acquire_sync is Implicit
        },
{
    if let Storage::Binary(storage) = frame.storage {
        let stride = storage.planes@[0].stride as int;
        let last = frame.coded_height - 1;
        assert(stride * row <= stride * last) by (nonlinear_arith)
            requires
                0 <= stride,
                0 <= row <= last,
        ;
    }
}

/// A frame of bytes is refused only where its rectangle, its plane, its last row or its acquire
/// synchronization does not hold.
pub proof fn whole_frames_of_bytes_are_accepted(
    frame: FrameDescriptor,
    result: Result<(), ValidationError>,
)
    requires
        call_ensures(FrameDescriptor::validate, (&frame,), result),
    ensures
        frame.storage matches Storage::Binary(storage) ==> result is Err ==> {
            let plane = storage.planes@[0];
            ||| frame.coded_width == 0 || frame.coded_height == 0
            ||| frame.visible_rect.width == 0 || frame.visible_rect.height == 0
            ||| frame.visible_rect.x + frame.visible_rect.width > frame.coded_width
            ||| frame.visible_rect.y + frame.visible_rect.height > frame.coded_height
            ||| storage.planes@.len() != 1
            ||| plane.stride == 0
            ||| plane.offset + plane.stride * (frame.coded_height - 1) >= storage.data@.len()
            ||| frame.acquire_sync is SyncFile
        },
{
    if let Storage::Binary(storage) = frame.storage {
        let stride = storage.planes@[0].stride as int;
        let last = frame.coded_height - 1;
        if last >= 0 {
            assert(stride * last >= 0) by (nonlinear_arith)
                requires
                    0 <= stride,
                    0 <= last,
            ;
        }
    }
}

/// What the fault of a frame of bytes says about its last row is true.
pub proof fn last_row_faults_are_true(
    frame: FrameDescriptor,
    result: Result<(), ValidationError>,
)
    requires
        call_ensures(FrameDescriptor::validate, (&frame,), result),
    ensures
        frame.storage matches Storage::Binary(storage) ==> (result matches Err(
            ValidationError::BinaryLastRowOutOfBounds { offset, data_size },
        ) ==> {
            let plane = storage.planes@[0];
            let start = plane.offset + plane.stride * (frame.coded_height - 1);
            &&& storage.planes@.len() == 1
            &&& data_size == storage.data@.len() as u64
            &&& start >= storage.data@.len()
            &&& start <= 0xffff_ffff_ffff_ffff ==> offset == start
            &&& start > 0xffff_ffff_ffff_ffff ==> offset == 0xffff_ffff_ffff_ffff
        }),
{
}

/// How many planes the layer at `index` has, where there is one.
pub open spec fn planes_of(descriptor: Descriptor, index: int) -> int {
    if index < descriptor.layers@.len() {
        descriptor.layers@[index].planes@.len() as int
    } else {
        0
    }
}

/// A descriptor is accepted only if it has version one, one to four objects with an open file
/// descriptor and a size, one to four layers with a pixel format and planes, at most four planes in
/// all, and every plane has a pitch and starts inside an object that exists.
pub proof fn accepted_descriptors_are_sound(
    descriptor: Descriptor,
    result: Result<(), ValidationError>,
    object: int,
    layer: int,
    plane: int,
)
    requires
        call_ensures(Descriptor::validate, (&descriptor,), result),
        result is Ok,
        0 <= object < descriptor.objects@.len(),
        0 <= layer < descriptor.layers@.len(),
        0 <= plane < descriptor.layers@[layer].planes@.len(),
    ensures
        descriptor.version == 1,
        1 <= descriptor.objects@.len() <= 4,
        1 <= descriptor.layers@.len() <= 4,
        planes_of(descriptor, 0) + planes_of(descriptor, 1) + planes_of(descriptor, 2) + planes_of(
            descriptor,
            3,
        ) <= 4,
        descriptor.objects@[object].fd >= 0,
        descriptor.objects@[object].size > 0,
        exists|by_layer: int, by_plane: int|
            #![trigger descriptor.layers@[by_layer].planes@[by_plane]]
            0 <= by_layer < descriptor.layers@.len() && 0 <= by_plane
                < descriptor.layers@[by_layer].planes@.len()
                && descriptor.layers@[by_layer].planes@[by_plane].object_index == object,
        descriptor.layers@[layer].fourcc != 0,
        ({
            let entry = descriptor.layers@[layer].planes@[plane];
            &&& entry.pitch > 0
            &&& entry.object_index < descriptor.objects@.len()
            &&& entry.offset < descriptor.objects@[entry.object_index as int].size
        }),
{
    let view = descriptor@;
    assert(view.layers[layer] == descriptor.layers@[layer]@);
    assert(view.layers[layer].planes[plane] == descriptor.layers@[layer].planes@[plane]);
    assert(view.objects[object].fd >= 0);
    let (by_layer, by_plane) = choose|by_layer: int, by_plane: int|
        #![trigger view.layers[by_layer].planes[by_plane]]
        0 <= by_layer < view.layers.len() && 0 <= by_plane < view.layers[by_layer].planes.len()
            && view.layers[by_layer].planes[by_plane].object_index == object;
    assert(view.layers[by_layer] == descriptor.layers@[by_layer]@);
    assert(descriptor.layers@[by_layer].planes@[by_plane].object_index == object);
    reveal_with_fuel(crate::dmabuf::plane_count, 5);
    assert(forall|index: int|
        0 <= index < descriptor.layers@.len() ==> #[trigger] view.layers[index].planes.len()
            == planes_of(descriptor, index));
}

/// A descriptor that is sound in all of this is accepted.
pub proof fn sound_descriptors_are_accepted(
    descriptor: Descriptor,
    result: Result<(), ValidationError>,
)
    requires
        call_ensures(Descriptor::validate, (&descriptor,), result),
        descriptor.version == 1,
        1 <= descriptor.objects@.len() <= 4,
        1 <= descriptor.layers@.len() <= 4,
        planes_of(descriptor, 0) + planes_of(descriptor, 1) + planes_of(descriptor, 2) + planes_of(
            descriptor,
            3,
        ) <= 4,
        forall|object: int|
            0 <= object < descriptor.objects@.len() ==> (#[trigger] descriptor.objects@[object]).fd
                >= 0 && descriptor.objects@[object].size > 0 && exists|layer: int, plane: int|
                #![trigger descriptor.layers@[layer].planes@[plane]]
                0 <= layer < descriptor.layers@.len() && 0 <= plane
                    < descriptor.layers@[layer].planes@.len()
                    && descriptor.layers@[layer].planes@[plane].object_index == object,
        forall|layer: int|
            0 <= layer < descriptor.layers@.len() ==> (#[trigger] descriptor.layers@[layer]).fourcc
                != 0 && descriptor.layers@[layer].planes@.len() >= 1,
        forall|layer: int, plane: int|
            0 <= layer < descriptor.layers@.len() && 0 <= plane
                < descriptor.layers@[layer].planes@.len() ==> {
                let entry = #[trigger] descriptor.layers@[layer].planes@[plane];
                entry.pitch > 0 && entry.object_index < descriptor.objects@.len() && entry.offset
                    < descriptor.objects@[entry.object_index as int].size
            },
    ensures
        result is Ok,
{
    let view = descriptor@;
    assert forall|index: int| 0 <= index < descriptor.layers@.len() implies (
    #[trigger] view.layers[index]) == descriptor.layers@[index]@ by {}
    assert forall|index: int| 0 <= index < view.objects.len() implies crate::dmabuf::is_referenced(
        view.layers,
        index,
    ) by {
        assert(descriptor.objects@[index].fd >= 0);
        let (layer, plane) = choose|layer: int, plane: int|
            #![trigger descriptor.layers@[layer].planes@[plane]]
            0 <= layer < descriptor.layers@.len() && 0 <= plane
                < descriptor.layers@[layer].planes@.len()
                && descriptor.layers@[layer].planes@[plane].object_index == index;
        assert(view.layers[layer].planes[plane].object_index == index);
    }
    assert forall|layer: int, plane: int|
        0 <= layer < view.layers.len() && 0 <= plane < view.layers[layer].planes.len() implies {
        let entry = #[trigger] view.layers[layer].planes[plane];
        entry.pitch > 0 && entry.object_index < view.objects.len() && entry.offset
            < view.objects[entry.object_index as int].size
    } by {
        assert(view.layers[layer].planes[plane] == descriptor.layers@[layer].planes@[plane]);
    }
    assert forall|layer: int| 0 <= layer < view.layers.len() implies (
    #[trigger] view.layers[layer]).fourcc != 0 && 0 < view.layers[layer].planes.len() <= 4 by {
        assert(descriptor.layers@[layer].fourcc != 0);
        assert(planes_of(descriptor, layer) == view.layers[layer].planes.len());
    }
    reveal_with_fuel(crate::dmabuf::plane_count, 5);
    assert(forall|index: int|
        0 <= index < descriptor.layers@.len() ==> #[trigger] view.layers[index].planes.len()
            == planes_of(descriptor, index));
    assert(view.well_formed());
}

/// A frame in DMA-BUF memory is accepted if and only if its rectangle and its descriptor are, and
/// the fence to wait for, where there is one, is a file descriptor.
pub proof fn borrowed_frames_are_accepted_part_by_part(
    frame: FrameDescriptor,
    descriptor: Descriptor,
    result: Result<(), ValidationError>,
    rectangle: Result<(), ValidationError>,
    memory: Result<(), ValidationError>,
)
    requires
        frame.storage == Storage::DmaBuf(descriptor),
        call_ensures(FrameDescriptor::validate, (&frame,), result),
        call_ensures(
            Rect::validate,
            (&frame.visible_rect, frame.coded_width, frame.coded_height),
            rectangle,
        ),
        call_ensures(Descriptor::validate, (&descriptor,), memory),
    ensures
        result is Ok <==> (rectangle is Ok && memory is Ok && (
        frame.acquire_sync matches AcquireSync::SyncFile(fence) ==> fence.acquire_fence_fd >= 0)),
        rectangle is Err ==> result == rectangle,
        rectangle is Ok && memory is Err ==> result == memory,
        result matches Err(ValidationError::NegativeAcquireFence(fd)) ==> rectangle is Ok
            && memory is Ok ==> fd < 0,
{
}

/// Duplicating a frame keeps everything that it says, and replaces each borrowed file descriptor by
/// what the duplication of that very descriptor returned.
pub proof fn duplicates_say_what_the_frame_said<H, D: Fn(i32) -> Result<H, std::io::Error> + Copy>(
    frame: FrameDescriptor,
    duplicate: D,
    result: Result<OwnedFrame<H>, DuplicateError>,
    valid: Result<(), ValidationError>,
    object: int,
)
    requires
        call_ensures(FrameDescriptor::duplicate_cloexec::<H, D>, (&frame, duplicate), result),
        call_ensures(FrameDescriptor::validate, (&frame,), valid),
        0 <= object,
    ensures
        valid matches Err(fault) ==> result == Err::<OwnedFrame<H>, _>(
            DuplicateError::InvalidFrame(fault),
        ),
        result matches Ok(owned) ==> {
            &&& valid is Ok
            &&& owned.coded_width == frame.coded_width
            &&& owned.coded_height == frame.coded_height
            &&& owned.visible_rect == frame.visible_rect
            &&& match (frame.storage, owned.storage) {
                (Storage::Binary(bytes), OwnedStorage::Binary(copy)) => copy.data@ == bytes.data@
                    && copy.planes@ == bytes.planes@,
                (Storage::DmaBuf(memory), OwnedStorage::DmaBuf(copy)) => {
                    &&& copy.version == memory.version
                    &&& copy.objects@.len() == memory.objects@.len()
                    &&& copy.layers@.len() == memory.layers@.len()
                    &&& object < memory.objects@.len() ==> copy.objects@[object].size
                        == memory.objects@[object].size && copy.objects@[object].modifier
                        == memory.objects@[object].modifier && call_ensures(
                        duplicate,
                        (memory.objects@[object].fd,),
                        Ok(copy.objects@[object].fd),
                    )
                    &&& object < memory.layers@.len() ==> copy.layers@[object].fourcc
                        == memory.layers@[object].fourcc && copy.layers@[object].planes@
                        == memory.layers@[object].planes@
                },
                _ => false,
            }
            &&& match (frame.acquire_sync, owned.acquire_sync) {
                (AcquireSync::Implicit, OwnedAcquireSync::Implicit) => true,
                (AcquireSync::SyncFile(fence), OwnedAcquireSync::SyncFile(copy)) => call_ensures(
                    duplicate,
                    (fence.acquire_fence_fd,),
                    Ok(copy),
                ),
                _ => false,
            }
        },
{
    if let Ok(owned) = result {
        if let (Storage::DmaBuf(memory), OwnedStorage::DmaBuf(copy)) = (
            frame.storage,
            owned.storage,
        ) {
            assert(copy.handles().len() == memory.objects@.len());
            if object < memory.objects@.len() {
                assert(copy.objects@[object].size == memory.objects@[object].size);
                assert(copy.handles()[object] == copy.objects@[object].fd);
            }
            assert(crate::dmabuf::layer_views(copy.layers@).len() == copy.layers@.len());
            if object < memory.layers@.len() {
                assert(crate::dmabuf::layer_views(copy.layers@)[object]
                    == copy.layers@[object]@);
                assert(memory@.layers[object] == memory.layers@[object]@);
            }
        }
    }
}

/// A stream format is accepted if and only if it has an area, positive rates and ratios, a pixel
/// format for DMA-BUF memory, and, for bytes, nothing to wait for, an alpha that the pixels have,
/// and a polarity for one-bit pixels and for no others.
pub proof fn accepted_formats_make_sense(format: Format, result: Result<(), FormatValidationError>)
    requires
        call_ensures(Format::validate, (&format,), result),
    ensures
        result is Ok <==> {
            &&& format.width > 0 && format.height > 0
            &&& format.framerate matches Some(rate) ==> rate.0 > 0 && rate.1 > 0
            &&& format.pixel_aspect_ratio.0 > 0 && format.pixel_aspect_ratio.1 > 0
            &&& match format.storage {
                StorageFormat::DmaBuf(memory) => memory.fourcc != 0,
                StorageFormat::Binary(bytes) => {
                    &&& format.acquire_sync is Implicit
                    &&& bytes.pixel_format is Bw1 <==> bytes.bw1_polarity is Some
                    &&& format.alpha_mode is Opaque || bytes.pixel_format is Rgba8888
                },
            }
        },
{
}

/// What the fault of a stream format says is true.
pub proof fn format_faults_are_true(format: Format, result: Result<(), FormatValidationError>)
    requires
        call_ensures(Format::validate, (&format,), result),
    ensures
        match result {
            Ok(()) => true,
            Err(FormatValidationError::ZeroSize { width, height }) => (width, height) == (
                format.width,
                format.height,
            ) && (width == 0 || height == 0),
            Err(FormatValidationError::InvalidFramerate { numerator, denominator }) =>
                format.framerate == Some((numerator, denominator)) && (numerator == 0
                    || denominator == 0),
            Err(FormatValidationError::InvalidFourcc) => format.storage matches StorageFormat::DmaBuf(
                memory,
            ) && memory.fourcc == 0,
            Err(FormatValidationError::MissingBw1Polarity) =>
                format.storage matches StorageFormat::Binary(bytes) && bytes.pixel_format is Bw1
                && bytes.bw1_polarity is None,
            Err(FormatValidationError::UnexpectedBw1Polarity) =>
                format.storage matches StorageFormat::Binary(bytes) && !(
            bytes.pixel_format is Bw1) && bytes.bw1_polarity is Some,
            Err(FormatValidationError::BinaryFormatRequiresImplicitSync) => format.storage is Binary
                && !(format.acquire_sync is Implicit),
            Err(FormatValidationError::BinaryFormatRequiresOpaqueAlpha) => format.storage is Binary
                && !(format.alpha_mode is Opaque),
            Err(FormatValidationError::InvalidPixelAspectRatio { numerator, denominator }) =>
                format.pixel_aspect_ratio == (numerator, denominator) && (numerator == 0
                    || denominator == 0),
        },
{
}

/// The linear modifier is the explicit modifier zero, and only explicit modifiers have a code.
pub proof fn modifiers_have_their_codes(modifier: Modifier, linear: Modifier, code: Option<u64>)
    requires
        call_ensures(Modifier::linear, (), linear),
        call_ensures(Modifier::explicit, (modifier,), code),
    ensures
        linear == Modifier::Explicit(0),
        code is Some <==> modifier is Explicit,
        code matches Some(number) ==> modifier == Modifier::Explicit(number),
{
}

/// Modifiers are numbers in messages, or the atom for an implicit one; nothing else is read as one.
pub proof fn modifiers_are_numbers_in_messages(
    value: SchemaValue,
    read: Option<Modifier>,
    modifier: Modifier,
    written: SchemaValue,
)
    requires
        call_ensures(decode_modifier, (&value,), read),
        call_ensures(encode_modifier, (modifier,), written),
    ensures
        value matches SchemaValue::Number(number) ==> read == Some(Modifier::Explicit(number)),
        value matches SchemaValue::Atom(name) ==> (if name@ == "implicit"@ {
            read == Some(Modifier::Implicit)
        } else {
            read is None
        }),
        match modifier {
            Modifier::Explicit(number) => written == SchemaValue::Number(number),
            Modifier::Implicit => written matches SchemaValue::Atom(name) && name@ == "implicit"@,
        },
{
}

/// Modifier policies are numbers in messages, or one of two atoms; nothing else is read as one.
pub proof fn modifier_policies_are_numbers_in_messages(
    value: SchemaValue,
    read: Option<ModifierPolicy>,
    policy: ModifierPolicy,
    written: SchemaValue,
)
    requires
        call_ensures(decode_modifier_policy, (&value,), read),
        call_ensures(encode_modifier_policy, (policy,), written),
    ensures
        value matches SchemaValue::Number(number) ==> read == Some(
            ModifierPolicy::Explicit(number),
        ),
        value matches SchemaValue::Atom(name) ==> (if name@ == "implicit"@ {
            read == Some(ModifierPolicy::Implicit)
        } else if name@ == "per_buffer"@ {
            read == Some(ModifierPolicy::PerBuffer)
        } else {
            read is None
        }),
        match policy {
            ModifierPolicy::Explicit(number) => written == SchemaValue::Number(number),
            ModifierPolicy::Implicit => written matches SchemaValue::Atom(name) && name@
                == "implicit"@,
            ModifierPolicy::PerBuffer => written matches SchemaValue::Atom(name) && name@
                == "per_buffer"@,
        },
{
    reveal_strlit("implicit");
    reveal_strlit("per_buffer");
    assert("implicit"@.len() != "per_buffer"@.len());
}

/// Lists of a descriptor are read up to four entries.
pub proof fn lists_have_at_most_four_entries(entries: usize, admitted: bool)
    requires
        call_ensures(admits_another_entry, (entries,), admitted),
    ensures
        admitted <==> entries + 1 <= 4,
{
}

/// A probe is that of the file: its identity is the one that the status reports, its size the end of
/// the file, which is not zero and not contradicted by the status.
pub proof fn probes_are_those_of_the_file(
    status: DmaBufStat,
    end: u64,
    result: Result<DmaBufProbe, DmaBufAllocationSizeError>,
)
    requires
        call_ensures(evaluate_probe, (status, end), result),
    ensures
        result is Ok <==> (end > 0 && (status.size == 0 || status.size == end)),
        result matches Ok(probe) ==> probe.allocation_size == end && probe.device == status.device
            && probe.inode == status.inode,
        match result {
            Ok(_) => true,
            Err(DmaBufAllocationSizeError::Zero) => end == 0,
            Err(DmaBufAllocationSizeError::NegativeStat(size)) => size == status.size && size < 0,
            Err(DmaBufAllocationSizeError::ProbeMismatch { stat, seek_end }) => stat == status.size
                && seek_end == end && stat != seek_end,
            Err(_) => false,
        },
{
}

/// Probing a file descriptor returns the end of the file and the identity in its status, and nothing
/// of the sort where the status or the end cannot be read.
pub proof fn probing_reads_status_and_end<
    F: Fn() -> Result<DmaBufStat, std::io::Error>,
    G: Fn(SeekTarget) -> Result<u64, std::io::Error>,
>(stat: F, seek: G, result: Result<DmaBufProbe, DmaBufAllocationSizeError>)
    requires
        call_ensures(probe_dmabuf::<F, G>, (stat, seek), result),
    ensures
        result matches Ok(probe) ==> exists|status: DmaBufStat|
            {
                &&& #[trigger] call_ensures(stat, (), Ok(status))
                &&& call_ensures(seek, (SeekTarget::End,), Ok(probe.allocation_size))
                &&& probe.device == status.device && probe.inode == status.inode
                &&& probe.allocation_size > 0
                &&& status.size == 0 || status.size == probe.allocation_size
            },
        match result {
            Err(DmaBufAllocationSizeError::Stat(error)) => call_ensures(stat, (), Err(error)),
            Err(DmaBufAllocationSizeError::Seek(error)) => call_ensures(
                seek,
                (SeekTarget::End,),
                Err(error),
            ),
            Err(DmaBufAllocationSizeError::Restore(error)) => exists|position: u64| #[trigger]
                call_ensures(seek, (SeekTarget::Start(position),), Err(error)) && call_ensures(
                    seek,
                    (SeekTarget::Current,),
                    Ok(position),
                ),
            _ => true,
        },
{
    match result {
        Err(DmaBufAllocationSizeError::Restore(error)) => {
            let position = choose|position: u64| #[trigger]
                crate::probe::puts_back(seek, position, Err(error));
            assert(call_ensures(seek, (SeekTarget::Start(position),), Err(error)));
        },
        _ => {},
    }
}

/// The moves of a probe: to where the file stands, to its end, and back to where it stood.
pub proof fn probes_move_there_and_back(
    step: ProbeStep,
    target: Option<SeekTarget>,
    outcome: Result<u64, std::io::Error>,
    next: ProbeStep,
    next_target: Option<SeekTarget>,
)
    requires
        call_ensures(ProbeStep::target, (&step,), target),
        call_ensures(ProbeStep::sought, (step, outcome), next),
        call_ensures(ProbeStep::target, (&next,), next_target),
    ensures
        target is None <==> step is Done,
        target == Some(SeekTarget::Current) ==> next_target == Some(SeekTarget::End),
        target == Some(SeekTarget::Current) ==> (outcome matches Ok(position) ==> (
        next matches ProbeStep::ReadEnd { position: known, .. } && known == Some(position))),
        target == Some(SeekTarget::End) ==> (step matches ProbeStep::ReadEnd {
            position: Some(position),
            ..
        } ==> next_target == Some(SeekTarget::Start(position))),
        target == Some(SeekTarget::End) ==> (step matches ProbeStep::ReadEnd {
            position: None,
            ..
        } ==> next is Done),
        target matches Some(SeekTarget::Start(_)) ==> next is Done,
        target matches Some(SeekTarget::Start(_)) ==> outcome is Err ==> (
        next matches ProbeStep::Done(Err(DmaBufAllocationSizeError::Restore(error))) && outcome
            == Err::<u64, _>(error)),
{
}

/// What the fault of a storage of bytes says is true.
pub proof fn storage_faults_are_true(storage: BinaryStorage, result: Result<(), ValidationError>)
    requires
        call_ensures(BinaryStorage::validate, (&storage,), result),
    ensures
        match result {
            Ok(()) => storage.planes@.len() == 1 && storage.planes@[0].stride > 0
                && storage.planes@[0].offset < storage.data@.len(),
            Err(ValidationError::EmptyBinaryPlanes) => storage.planes@.len() == 0,
            Err(ValidationError::UnsupportedBinaryPlaneCount(count)) => count
                == storage.planes@.len() && count > 1,
            Err(ValidationError::ZeroBinaryStride) => storage.planes@[0].stride == 0,
            Err(ValidationError::BinaryOffsetOutOfBounds { offset, data_size }) => offset
                == storage.planes@[0].offset && data_size == storage.data@.len() as u64 && offset
                >= storage.data@.len(),
            Err(_) => false,
        },
{
    assert(storage.planes.len() == storage.planes@.len());
}

proof fn lemma_object_fault(objects: Seq<Object>, from: int) -> (index: int)
    requires
        0 <= from,
        objects_fault(objects, from) is Some,
    ensures
        from <= index < objects.len(),
        objects_fault(objects, from) == object_fault(objects, index),
        object_fault(objects, index) is Some,
    decreases objects.len() - from,
{
    if object_fault(objects, from) is Some {
        from
    } else {
        lemma_object_fault(objects, from + 1)
    }
}

proof fn lemma_plane_fault(
    objects: Seq<Object>,
    layer: int,
    planes: Seq<Plane>,
    from: int,
) -> (plane: int)
    requires
        0 <= from,
        planes_fault(objects, layer, planes, from) is Some,
    ensures
        from <= plane < planes.len(),
        planes_fault(objects, layer, planes, from) == plane_fault(objects, layer, planes, plane),
        plane_fault(objects, layer, planes, plane) is Some,
    decreases planes.len() - from,
{
    if plane_fault(objects, layer, planes, from) is Some {
        from
    } else {
        lemma_plane_fault(objects, layer, planes, from + 1)
    }
}

proof fn lemma_layer_fault(objects: Seq<Object>, layers: Seq<LayerView>, from: int) -> (layer: int)
    requires
        0 <= from,
        layers_fault(objects, layers, from) is Some,
    ensures
        from <= layer < layers.len(),
        layers_fault(objects, layers, from) == layer_fault(objects, layers, layer),
        layer_fault(objects, layers, layer) is Some,
    decreases layers.len() - from,
{
    if layer_fault(objects, layers, from) is Some {
        from
    } else {
        lemma_layer_fault(objects, layers, from + 1)
    }
}

proof fn lemma_no_layer_fault(objects: Seq<Object>, layers: Seq<LayerView>, from: int)
    requires
        0 <= from,
        layers_fault(objects, layers, from) is None,
    ensures
        forall|layer: int|
            from <= layer < layers.len() ==> (#[trigger] layers[layer]).planes.len() <= 4,
    decreases layers.len() - from,
{
    if from < layers.len() {
        lemma_no_layer_fault(objects, layers, from + 1);
    }
}

proof fn lemma_unreferenced(view: DescriptorView, from: int)
    requires
        0 <= from,
        unreferenced_object(view, from) is Some,
    ensures
        from <= unreferenced_object(view, from)->0 < view.objects.len(),
        !is_referenced(view.layers, unreferenced_object(view, from)->0),
    decreases view.objects.len() - from,
{
    if is_referenced(view.layers, from) {
        lemma_unreferenced(view, from + 1);
    }
}

/// What the fault of a descriptor says is true: the entry that it names has what it blames.
pub proof fn descriptor_faults_are_true(
    descriptor: Descriptor,
    result: Result<(), ValidationError>,
)
    requires
        call_ensures(Descriptor::validate, (&descriptor,), result),
    ensures
        match result {
            Ok(()) => true,
            Err(ValidationError::UnsupportedDescriptorVersion(version)) => version
                == descriptor.version && version != 1,
            Err(ValidationError::EmptyObjects) => descriptor.objects@.len() == 0,
            Err(ValidationError::EmptyLayers) => descriptor.layers@.len() == 0,
            Err(ValidationError::TooManyEntries { actual, maximum, .. }) => {
                &&& maximum == 4 && actual > 4
                &&& actual == descriptor.objects@.len() || actual == descriptor.layers@.len()
                    || exists|layer: int|
                    0 <= layer < descriptor.layers@.len() && (
                    #[trigger] descriptor.layers@[layer]).planes@.len() == actual
            },
            Err(ValidationError::NegativeFd { index, fd }) => index < descriptor.objects@.len() && fd
                == descriptor.objects@[index as int].fd && fd < 0,
            Err(ValidationError::ZeroObjectSize { index }) => index < descriptor.objects@.len()
                && descriptor.objects@[index as int].size == 0,
            Err(ValidationError::InvalidFourcc { index }) => index < descriptor.layers@.len()
                && descriptor.layers@[index as int].fourcc == 0,
            Err(ValidationError::EmptyPlanes { index }) => index < descriptor.layers@.len()
                && descriptor.layers@[index as int].planes@.len() == 0,
            Err(ValidationError::ZeroPitch { layer, plane }) => {
                &&& layer < descriptor.layers@.len() && plane
                    < descriptor.layers@[layer as int].planes@.len()
                &&& descriptor.layers@[layer as int].planes@[plane as int].pitch == 0
            },
            Err(
                ValidationError::InvalidObjectIndex { layer, plane, object_index, object_count },
            ) => {
                &&& layer < descriptor.layers@.len() && plane
                    < descriptor.layers@[layer as int].planes@.len()
                &&& descriptor.layers@[layer as int].planes@[plane as int].object_index
                    == object_index
                &&& object_count == descriptor.objects@.len() && object_index >= object_count
            },
            Err(
                ValidationError::PlaneOffsetOutOfBounds {
                    layer,
                    plane,
                    object_index,
                    offset,
                    object_size,
                },
            ) => {
                &&& layer < descriptor.layers@.len() && plane
                    < descriptor.layers@[layer as int].planes@.len()
                &&& descriptor.layers@[layer as int].planes@[plane as int].object_index
                    == object_index
                &&& descriptor.layers@[layer as int].planes@[plane as int].offset == offset
                &&& object_index < descriptor.objects@.len() && object_size
                    == descriptor.objects@[object_index as int].size
                &&& offset >= object_size
            },
            Err(ValidationError::TooManyPlanes { actual, maximum }) => maximum == 4 && actual > 4
                && (actual == planes_of(descriptor, 0) + planes_of(descriptor, 1) + planes_of(
                descriptor,
                2,
            ) + planes_of(descriptor, 3)),
            Err(ValidationError::UnreferencedObject { index }) => {
                &&& index < descriptor.objects@.len()
                &&& forall|layer: int, plane: int|
                    #![trigger descriptor.layers@[layer].planes@[plane]]
                    0 <= layer < descriptor.layers@.len() && 0 <= plane
                        < descriptor.layers@[layer].planes@.len()
                        ==> descriptor.layers@[layer].planes@[plane].object_index != index
            },
            Err(_) => false,
        },
{
    let view = descriptor@;
    assert(descriptor.objects.len() == descriptor.objects@.len());
    assert(descriptor.layers.len() == descriptor.layers@.len());
    assert(forall|index: int|
        0 <= index < descriptor.layers@.len() ==> (#[trigger] descriptor.layers@[index]).planes.len()
            == descriptor.layers@[index].planes@.len());
    assert(forall|index: int|
        0 <= index < descriptor.layers@.len() ==> #[trigger] view.layers[index]
            == descriptor.layers@[index]@);
    assert(forall|index: int|
        0 <= index < descriptor.layers@.len() ==> #[trigger] view.layers[index].planes.len()
            == planes_of(descriptor, index));
    reveal_with_fuel(crate::dmabuf::plane_count, 5);
    if objects_fault(view.objects, 0) is Some {
        let index = lemma_object_fault(view.objects, 0);
    }
    if layers_fault(view.objects, view.layers, 0) is Some {
        let layer = lemma_layer_fault(view.objects, view.layers, 0);
        let planes = view.layers[layer].planes;
        assert(planes.len() == descriptor.layers@[layer].planes@.len());
        if planes_fault(view.objects, layer, planes, 0) is Some {
            let plane = lemma_plane_fault(view.objects, layer, planes, 0);
        }
    }
    if layers_fault(view.objects, view.layers, 0) is None {
        lemma_no_layer_fault(view.objects, view.layers, 0);
    }
    if unreferenced_object(view, 0) is Some {
        lemma_unreferenced(view, 0);
        let index = unreferenced_object(view, 0)->0;
        assert forall|layer: int, plane: int|
            #![trigger descriptor.layers@[layer].planes@[plane]]
            0 <= layer < descriptor.layers@.len() && 0 <= plane
                < descriptor.layers@[layer].planes@.len() implies descriptor.layers@[layer].planes@[plane].object_index
            != index by {
            assert(view.layers[layer].planes[plane] == descriptor.layers@[layer].planes@[plane]);
        }
    }
}

/// A probe begins with reading the position, where the file has a status, and is over with its error
/// where it has none. It carries the status along unchanged.
pub proof fn probes_begin_with_the_status(
    stat: Result<DmaBufStat, std::io::Error>,
    first: ProbeStep,
    outcome: Result<u64, std::io::Error>,
    step: ProbeStep,
    next: ProbeStep,
    end: u64,
    evaluated: Result<DmaBufProbe, DmaBufAllocationSizeError>,
    status: DmaBufStat,
)
    requires
        call_ensures(ProbeStep::begin, (stat,), first),
        call_ensures(ProbeStep::sought, (step, outcome), next),
        call_ensures(evaluate_probe, (status, end), evaluated),
    ensures
        stat matches Ok(found) ==> first == (ProbeStep::ReadPosition { status: found }),
        stat matches Err(error) ==> first == ProbeStep::Done(
            Err(DmaBufAllocationSizeError::Stat(error)),
        ),
        step == (ProbeStep::ReadPosition { status }) ==> (next matches ProbeStep::ReadEnd {
            status: kept,
            ..
        } && kept == status),
        step matches ProbeStep::ReadEnd { status: own, position: Some(position) } ==> next == (
        ProbeStep::Restore { status: own, position, end: outcome }),
        step == (ProbeStep::ReadEnd { status, position: None }) && outcome == Ok::<
            u64,
            std::io::Error,
        >(end) ==> next == ProbeStep::Done(evaluated),
        step matches ProbeStep::ReadEnd { position: None, .. } ==> (outcome matches Err(error)
            ==> next == ProbeStep::Done(Err(DmaBufAllocationSizeError::Seek(error)))),
        step matches ProbeStep::Restore { status: own, end: Ok(reached), .. } ==> own == status
            && reached == end && outcome is Ok ==> next == ProbeStep::Done(evaluated),
        step matches ProbeStep::Restore { end: Err(error), .. } ==> outcome is Ok ==> next
            == ProbeStep::Done(Err(DmaBufAllocationSizeError::Seek(error))),
{
}

/// The descriptors of a DMA-BUF are duplicated one by one: a descriptor that is valid either becomes
/// one that says the same, each file descriptor replaced by what its own duplication returned, or
/// fails with the error of the one that could not be duplicated.
pub proof fn descriptors_are_duplicated_object_by_object<
    H,
    D: Fn(i32) -> Result<H, std::io::Error>,
>(
    descriptor: Descriptor,
    duplicate: D,
    valid: Result<(), ValidationError>,
    result: Result<OwnedDescriptor<H>, DuplicateError>,
    plain: Result<OwnedDescriptor<H>, DuplicateError>,
    index: int,
)
    requires
        call_ensures(Descriptor::validate, (&descriptor,), valid),
        call_ensures(Descriptor::duplicate_with::<H, D>, (&descriptor, duplicate), result),
        call_ensures(Descriptor::duplicate_cloexec::<H, D>, (&descriptor, duplicate), plain),
    ensures
        copies_descriptor(descriptor, duplicate, valid, result, index),
        copies_descriptor(descriptor, duplicate, valid, plain, index),
{
    lemma_copies(descriptor, duplicate, valid, result, index);
    lemma_copies(descriptor, duplicate, valid, plain, index);
}

/// What duplicating a descriptor comes to, as far as the entry at `index` shows it.
pub open spec fn copies_descriptor<H, D: Fn(i32) -> Result<H, std::io::Error>>(
    descriptor: Descriptor,
    duplicate: D,
    valid: Result<(), ValidationError>,
    result: Result<OwnedDescriptor<H>, DuplicateError>,
    index: int,
) -> bool {
    &&& valid matches Err(fault) ==> result == Err::<OwnedDescriptor<H>, _>(
        DuplicateError::InvalidFrame(fault),
    )
    &&& result matches Ok(copy) ==> {
        &&& valid is Ok
        &&& copy.version == descriptor.version
        &&& copy.objects@.len() == descriptor.objects@.len()
        &&& copy.layers@.len() == descriptor.layers@.len()
        &&& 0 <= index < descriptor.objects@.len() ==> {
            &&& copy.objects@[index].size == descriptor.objects@[index].size
            &&& copy.objects@[index].modifier == descriptor.objects@[index].modifier
            &&& call_ensures(
                duplicate,
                (descriptor.objects@[index].fd,),
                Ok(copy.objects@[index].fd),
            )
        }
        &&& 0 <= index < descriptor.layers@.len() ==> copy.layers@[index].fourcc
            == descriptor.layers@[index].fourcc && copy.layers@[index].planes@
            == descriptor.layers@[index].planes@
    }
    &&& valid is Ok ==> (result matches Err(error) ==> (
    error matches DuplicateError::DuplicateObjectFd { index: at, fd, source } && at
        < descriptor.objects@.len() && fd == descriptor.objects@[at as int].fd && call_ensures(
        duplicate,
        (fd,),
        Err(source),
    )))
}

proof fn lemma_copies<H, D: Fn(i32) -> Result<H, std::io::Error>>(
    descriptor: Descriptor,
    duplicate: D,
    valid: Result<(), ValidationError>,
    result: Result<OwnedDescriptor<H>, DuplicateError>,
    index: int,
)
    requires
        valid == descriptor@.verdict(),
        crate::dmabuf::duplication_outcome(descriptor, duplicate, result),
    ensures
        copies_descriptor(descriptor, duplicate, valid, result, index),
{
    if let Ok(copy) = result {
        assert(copy.handles().len() == descriptor.objects@.len());
        if 0 <= index < descriptor.objects@.len() {
            assert(copy.objects[index].size == descriptor.objects[index].size);
            assert(copy.handles()[index] == copy.objects@[index].fd);
        }
        assert(crate::dmabuf::layer_views(copy.layers@).len() == copy.layers@.len());
        if 0 <= index < descriptor.layers@.len() {
            assert(crate::dmabuf::layer_views(copy.layers@)[index] == copy.layers@[index]@);
            assert(descriptor@.layers[index] == descriptor.layers@[index]@);
        }
    }
}

/// A fence is duplicated as its own descriptor, and refused without a call where it is none.
pub proof fn fences_are_duplicated_as_their_own<H, D: Fn(i32) -> Result<H, std::io::Error>>(
    fence: SyncFile,
    sync: AcquireSync,
    duplicate: D,
    result: Result<H, DuplicateError>,
    synced: Result<OwnedAcquireSync<H>, DuplicateError>,
)
    requires
        call_ensures(SyncFile::duplicate_cloexec::<H, D>, (&fence, duplicate), result),
        call_ensures(AcquireSync::duplicate_cloexec::<H, D>, (&sync, duplicate), synced),
    ensures
        result matches Ok(copy) ==> fence.acquire_fence_fd >= 0 && call_ensures(
            duplicate,
            (fence.acquire_fence_fd,),
            Ok(copy),
        ),
        fence.acquire_fence_fd < 0 ==> result == Err::<H, _>(
            DuplicateError::NegativeAcquireFence(fence.acquire_fence_fd),
        ),
        fence.acquire_fence_fd >= 0 ==> (result matches Err(error) ==> (
        error matches DuplicateError::DuplicateAcquireFence { fd, source } && fd
            == fence.acquire_fence_fd && call_ensures(duplicate, (fd,), Err(source)))),
        sync is Implicit ==> (synced matches Ok(copy) && copy is Implicit),
        sync matches AcquireSync::SyncFile(own) ==> (synced matches Ok(copy) ==> (
        copy matches OwnedAcquireSync::SyncFile(handle) && own.acquire_fence_fd >= 0
            && call_ensures(duplicate, (own.acquire_fence_fd,), Ok(handle)))),
{
}

/// Bytes are copied whole, and always; borrowed memory is duplicated as its descriptor is.
pub proof fn storages_are_duplicated_as_they_are<H, D: Fn(i32) -> Result<H, std::io::Error>>(
    storage: Storage,
    duplicate: D,
    result: Result<OwnedStorage<H>, DuplicateError>,
    valid: Result<(), ValidationError>,
    index: int,
)
    requires
        call_ensures(Storage::duplicate_cloexec::<H, D>, (&storage, duplicate), result),
        storage matches Storage::DmaBuf(descriptor) ==> call_ensures(
            Descriptor::validate,
            (&descriptor,),
            valid,
        ),
    ensures
        storage matches Storage::Binary(bytes) ==> (result matches Ok(OwnedStorage::Binary(copy))
            && copy.data@ == bytes.data@ && copy.planes@ == bytes.planes@),
        storage matches Storage::DmaBuf(descriptor) ==> match result {
            Ok(OwnedStorage::DmaBuf(copy)) => copies_descriptor(
                descriptor,
                duplicate,
                valid,
                Ok::<_, DuplicateError>(copy),
                index,
            ),
            Ok(_) => false,
            Err(error) => copies_descriptor(
                descriptor,
                duplicate,
                valid,
                Err::<OwnedDescriptor<H>, _>(error),
                index,
            ),
        },
{
    if let Storage::DmaBuf(descriptor) = storage {
        match result {
            Ok(OwnedStorage::DmaBuf(copy)) => {
                lemma_copies(descriptor, duplicate, valid, Ok::<_, DuplicateError>(copy), index);
            },
            Err(error) => {
                lemma_copies(
                    descriptor,
                    duplicate,
                    valid,
                    Err::<OwnedDescriptor<H>, _>(error),
                    index,
                );
            },
            _ => {},
        }
    }
}

/// Duplication begins with nothing, where the descriptor is valid; it asks for the first object that
/// has no duplicate yet, adds its duplicate behind the others, and is over when every object has
/// one.
pub proof fn duplication_goes_object_by_object<H>(
    descriptor: Descriptor,
    valid: Result<(), ValidationError>,
    begun: Result<Duplication<H>, ValidationError>,
    duplication: Duplication<H>,
    due: Option<i32>,
    outcome: Result<H, std::io::Error>,
    result: Result<Duplication<H>, DuplicateError>,
)
    requires
        call_ensures(Descriptor::validate, (&descriptor,), valid),
        call_ensures(Descriptor::begin_duplication::<H>, (&descriptor,), begun),
        call_ensures(Duplication::<H>::next, (&duplication, &descriptor), due),
        call_ensures(Duplication::<H>::answered, (duplication, &descriptor, outcome), result),
        duplication.objects@.len() < descriptor.objects@.len(),
    ensures
        begun is Ok <==> valid is Ok,
        begun matches Ok(first) ==> first.objects@.len() == 0,
        begun matches Err(fault) ==> valid == Err::<(), _>(fault),
        due == Some(descriptor.objects@[duplication.objects@.len() as int].fd),
        result is Ok <==> outcome is Ok,
        result matches Ok(next) ==> {
            let made = next.objects@.last();
            let object = descriptor.objects@[duplication.objects@.len() as int];
            &&& next.objects@.drop_last() =~= duplication.objects@
            &&& next.objects@.len() == duplication.objects@.len() + 1
            &&& outcome == Ok::<_, std::io::Error>(made.fd)
            &&& made.size == object.size && made.modifier == object.modifier
        },
        result matches Err(error) ==> (error matches DuplicateError::DuplicateObjectFd {
            index,
            fd,
            source,
        } && index == duplication.objects@.len() && Some(fd) == due && outcome == Err::<H, _>(
            source,
        )),
{
}

/// Nothing is due once every object has a duplicate, and what is finished then holds exactly the
/// duplicates.
pub proof fn finished_duplications_hold_the_duplicates<H>(
    descriptor: Descriptor,
    duplication: Duplication<H>,
    due: Option<i32>,
    owned: OwnedDescriptor<H>,
    index: int,
)
    requires
        call_ensures(Duplication::<H>::next, (&duplication, &descriptor), due),
        call_ensures(Duplication::<H>::finish, (duplication, &descriptor), owned),
    ensures
        due is None <==> duplication.objects@.len() >= descriptor.objects@.len(),
        owned.version == descriptor.version,
        0 <= index < owned.objects@.len() ==> index < duplication.objects@.len()
            && owned.objects@[index].fd == duplication.objects@[index].fd,
{
    assert(owned.handles().len() == owned.objects@.len());
    assert(duplication.handles().len() == duplication.objects@.len());
    if 0 <= index < owned.objects@.len() {
        assert(owned.handles()[index] == owned.objects@[index].fd);
        assert(duplication.handles()[index] == duplication.objects@[index].fd);
    }
}

/// The size of an allocation is the end of its file, read as a probe reads it.
pub proof fn allocation_sizes_are_ends_of_files<
    F: Fn() -> Result<DmaBufStat, std::io::Error>,
    G: Fn(SeekTarget) -> Result<u64, std::io::Error>,
>(stat: F, seek: G, result: Result<u64, DmaBufAllocationSizeError>)
    requires
        call_ensures(dmabuf_allocation_size::<F, G>, (stat, seek), result),
    ensures
        result matches Ok(size) ==> size > 0 && call_ensures(seek, (SeekTarget::End,), Ok(size))
            && exists|status: DmaBufStat| #[trigger]
            call_ensures(stat, (), Ok(status)) && (status.size == 0 || status.size == size),
        match result {
            Err(DmaBufAllocationSizeError::Stat(error)) => call_ensures(stat, (), Err(error)),
            Err(DmaBufAllocationSizeError::Seek(error)) => call_ensures(
                seek,
                (SeekTarget::End,),
                Err(error),
            ),
            _ => true,
        },
{
}

} // verus!
