//! DMA-BUF descriptors: objects, planes and layers.

use vstd::prelude::*;

use crate::error::{DuplicateError, ValidationError};
use crate::modifier::Modifier;

verus! {

/// The most objects, layers, planes of one layer, or planes in all that a descriptor may hold.
pub const AV_DRM_MAX_ENTRIES: usize = 4;

/// One buffer object: a borrowed file descriptor and the complete size of its allocation.
#[derive(Clone, Copy, Debug)]
pub struct Object {
    pub fd: i32,
    pub size: u64,
    pub modifier: Modifier,
}

/// One plane: where its first row starts in which object, and how far its rows are apart.
#[derive(Clone, Copy, Debug, PartialEq, Eq, Structural)]
pub struct Plane {
    pub object_index: u32,
    pub offset: u64,
    pub pitch: u32,
}

/// One layer: a pixel format and the planes that hold it.
#[derive(Debug, PartialEq, Eq)]
pub struct Layer {
    pub fourcc: u32,
    pub planes: Vec<Plane>,
}

/// The contents of a layer.
#[verifier::ext_equal]
pub ghost struct LayerView {
    pub fourcc: u32,
    pub planes: Seq<Plane>,
}

impl View for Layer {
    type V = LayerView;

    open spec fn view(&self) -> LayerView {
        LayerView { fourcc: self.fourcc, planes: self.planes@ }
    }
}

impl Clone for Layer {
    fn clone(&self) -> (copy: Layer)
        ensures
            copy@ == self@,
    {
        let planes = self.planes.clone();
        assert(planes@ =~= self.planes@);
        Layer { fourcc: self.fourcc, planes }
    }
}

/// A frame in DMA-BUF memory, with borrowed file descriptors.
#[derive(Debug)]
pub struct Descriptor {
    pub version: u32,
    pub objects: Vec<Object>,
    pub layers: Vec<Layer>,
}

/// The contents of a list of layers.
pub open spec fn layer_views(layers: Seq<Layer>) -> Seq<LayerView> {
    layers.map_values(|layer: Layer| layer@)
}

/// The contents of a descriptor.
#[verifier::ext_equal]
pub ghost struct DescriptorView {
    pub version: u32,
    pub objects: Seq<Object>,
    pub layers: Seq<LayerView>,
}

impl View for Descriptor {
    type V = DescriptorView;

    open spec fn view(&self) -> DescriptorView {
        DescriptorView {
            version: self.version,
            objects: self.objects@,
            layers: layer_views(self.layers@),
        }
    }
}

fn copy_of_layers(layers: &Vec<Layer>) -> (copy: Vec<Layer>)
    ensures
        layer_views(copy@) == layer_views(layers@),
{
    let mut copy: Vec<Layer> = Vec::new();
    let mut index: usize = 0;
    while index < layers.len()
        invariant
            index <= layers.len(),
            copy.len() == index,
            forall|before: int| 0 <= before < index ==> (#[trigger] copy[before])@
                == layers[before]@,
        decreases layers.len() - index,
    {
        copy.push(layers[index].clone());
        index += 1;
    }
    assert(layer_views(copy@) =~= layer_views(layers@));
    copy
}

impl Clone for Descriptor {
    fn clone(&self) -> (copy: Descriptor)
        ensures
            copy@ == self@,
    {
        let objects = self.objects.clone();
        assert(objects@ =~= self.objects@);
        Descriptor { version: self.version, objects, layers: copy_of_layers(&self.layers) }
    }
}

/// One buffer object with a file descriptor `H` of its own, which closes when it is dropped.
#[derive(Debug)]
pub struct OwnedObject<H> {
    pub fd: H,
    pub size: u64,
    pub modifier: Modifier,
}

/// A frame in DMA-BUF memory, with file descriptors of its own.
#[derive(Debug)]
pub struct OwnedDescriptor<H> {
    pub version: u32,
    pub objects: Vec<OwnedObject<H>>,
    pub layers: Vec<Layer>,
}

/// The file descriptors of a list of objects.
pub open spec fn handles_of<H>(objects: Seq<OwnedObject<H>>) -> Seq<H> {
    objects.map_values(|object: OwnedObject<H>| object.fd)
}

impl<H> OwnedDescriptor<H> {
    /// The file descriptors, object by object.
    pub open spec fn handles(self) -> Seq<H> {
        handles_of(self.objects@)
    }

    /// Everything but the file descriptors is that of `descriptor`.
    pub open spec fn duplicates(self, descriptor: Descriptor) -> bool {
        &&& self.version == descriptor.version
        &&& layer_views(self.layers@) == descriptor@.layers
        &&& self.objects.len() == descriptor.objects.len()
        &&& forall|index: int|
            0 <= index < self.objects.len() ==> (#[trigger] self.objects[index]).size
                == descriptor.objects[index].size && self.objects[index].modifier
                == descriptor.objects[index].modifier
    }
}

/// What has been duplicated of a descriptor so far.
#[derive(Debug)]
pub struct Duplication<H> {
    pub objects: Vec<OwnedObject<H>>,
}

impl<H> Duplication<H> {
    /// The file descriptors that have been duplicated.
    pub open spec fn handles(self) -> Seq<H> {
        handles_of(self.objects@)
    }

    /// What has been duplicated are the first objects of `descriptor`, each of them once.
    pub open spec fn fits(self, descriptor: Descriptor) -> bool {
        &&& self.objects.len() <= descriptor.objects.len()
        &&& forall|index: int|
            0 <= index < self.objects.len() ==> (#[trigger] self.objects[index]).size
                == descriptor.objects[index].size && self.objects[index].modifier
                == descriptor.objects[index].modifier
    }

    /// What `next` returns.
    pub open spec fn due(self, descriptor: Descriptor) -> Option<i32> {
        if self.objects.len() < descriptor.objects.len() {
            Some(descriptor.objects[self.objects.len() as int].fd)
        } else {
            None
        }
    }

    /// The file descriptor to duplicate next: that of the first object without a duplicate.
    pub fn next(&self, descriptor: &Descriptor) -> (fd: Option<i32>)
        ensures
            fd == self.due(*descriptor),
    {
        if self.objects.len() < descriptor.objects.len() {
            Some(descriptor.objects[self.objects.len()].fd)
        } else {
            None
        }
    }

    /// The file descriptor that was due has been duplicated, or not. A failure ends the work, and
    /// what was duplicated is dropped.
    pub fn answered(self, descriptor: &Descriptor, outcome: Result<H, std::io::Error>) -> (result:
        Result<Duplication<H>, DuplicateError>)
        requires
            self.fits(*descriptor),
            self.due(*descriptor) is Some,
        ensures
            match outcome {
                Ok(fd) => {
                    let object = descriptor.objects[self.objects.len() as int];
                    &&& result matches Ok(next)
                    &&& next.fits(*descriptor)
                    &&& next.objects@ == self.objects@.push(
                        OwnedObject { fd, size: object.size, modifier: object.modifier },
                    )
                    &&& next.handles() == self.handles().push(fd)
                },
                Err(source) => result == Err::<Duplication<H>, _>(
                    DuplicateError::DuplicateObjectFd {
                        index: self.objects.len(),
                        fd: self.due(*descriptor).unwrap(),
                        source,
                    },
                ),
            },
    {
        let index: usize = self.objects.len();
        let object = descriptor.objects[index];
        match outcome {
            Ok(fd) => {
                let mut next = self;
                let ghost before = next.handles();
                next.objects.push(
                    OwnedObject { fd, size: object.size, modifier: object.modifier },
                );
                assert(next.handles() =~= before.push(fd));
                Ok(next)
            },
            Err(source) => Err(DuplicateError::DuplicateObjectFd { index, fd: object.fd, source }),
        }
    }

    /// The descriptor with file descriptors of its own, once nothing is due.
    pub fn finish(self, descriptor: &Descriptor) -> (owned: OwnedDescriptor<H>)
        requires
            self.fits(*descriptor),
            self.due(*descriptor) is None,
        ensures
            owned.duplicates(*descriptor),
            owned.handles() == self.handles(),
    {
        OwnedDescriptor {
            version: descriptor.version,
            objects: self.objects,
            layers: copy_of_layers(&descriptor.layers),
        }
    }
}

/// The file descriptors of a descriptor are asked for one after the other, each of them once: with
/// every duplicate the next object is due, and after the last one nothing is.
pub proof fn descriptors_are_duplicated_once_and_in_order<H>(
    descriptor: Descriptor,
    before: Duplication<H>,
    after: Duplication<H>,
    object: OwnedObject<H>,
)
    requires
        before.fits(descriptor),
        before.due(descriptor) is Some,
        after.objects@ == before.objects@.push(object),
    ensures
        before.due(descriptor) == Some(descriptor.objects[before.objects.len() as int].fd),
        after.due(descriptor) == (if before.objects.len() + 1 < descriptor.objects.len() {
            Some(descriptor.objects[before.objects.len() + 1].fd)
        } else {
            None
        }),
        after.handles() == before.handles().push(object.fd),
{
    assert(after.handles() =~= before.handles().push(object.fd));
}

/// `duplicate` returned `handles` for the file descriptors of `objects`, one for one.
pub open spec fn duplicated<H, D: Fn(i32) -> Result<H, std::io::Error>>(
    duplicate: D,
    objects: Seq<Object>,
    handles: Seq<H>,
) -> bool {
    &&& handles.len() == objects.len()
    &&& forall|index: int|
        0 <= index < objects.len() ==> call_ensures(
            duplicate,
            (objects[index].fd,),
            Ok(#[trigger] handles[index]),
        )
}

/// What duplicating `descriptor` with `duplicate` may come to. A descriptor that validation
/// refuses is refused with the same fault, before anything is duplicated. Otherwise the result is
/// the description with a duplicate for every object, or the first duplication that failed.
pub open spec fn duplication_outcome<H, D: Fn(i32) -> Result<H, std::io::Error>>(
    descriptor: Descriptor,
    duplicate: D,
    result: Result<OwnedDescriptor<H>, DuplicateError>,
) -> bool {
    match descriptor@.verdict() {
        Err(fault) => result matches Err(DuplicateError::InvalidFrame(reported)) && reported
            == fault,
        Ok(()) => match result {
            Ok(owned) => owned.duplicates(descriptor) && duplicated(
                duplicate,
                descriptor.objects@,
                owned.handles(),
            ),
            Err(DuplicateError::DuplicateObjectFd { index, fd, source }) => {
                &&& index < descriptor.objects.len()
                &&& fd == descriptor.objects[index as int].fd
                &&& call_ensures(duplicate, (fd,), Err(source))
                &&& exists|handles: Seq<H>|
                    duplicated(duplicate, descriptor.objects@.take(index as int), handles)
            },
            Err(_) => false,
        },
    }
}

/// What is wrong with object `index`, if anything.
pub open spec fn object_fault(objects: Seq<Object>, index: int) -> Option<ValidationError> {
    if objects[index].fd < 0 {
        Some(ValidationError::NegativeFd { index: index as usize, fd: objects[index].fd })
    } else if objects[index].size == 0 {
        Some(ValidationError::ZeroObjectSize { index: index as usize })
    } else {
        None
    }
}

/// The fault of the first faulty object at or behind `from`.
pub open spec fn objects_fault(objects: Seq<Object>, from: int) -> Option<ValidationError>
    decreases objects.len() - from,
{
    if from < 0 || from >= objects.len() {
        None
    } else if object_fault(objects, from) is Some {
        object_fault(objects, from)
    } else {
        objects_fault(objects, from + 1)
    }
}

/// What is wrong with plane `plane` of layer `layer`, if anything.
pub open spec fn plane_fault(
    objects: Seq<Object>,
    layer: int,
    planes: Seq<Plane>,
    plane: int,
) -> Option<ValidationError> {
    let entry = planes[plane];
    if entry.pitch == 0 {
        Some(ValidationError::ZeroPitch { layer: layer as usize, plane: plane as usize })
    } else if entry.object_index >= objects.len() {
        Some(
            ValidationError::InvalidObjectIndex {
                layer: layer as usize,
                plane: plane as usize,
                object_index: entry.object_index,
                object_count: objects.len() as usize,
            },
        )
    } else if entry.offset >= objects[entry.object_index as int].size {
        Some(
            ValidationError::PlaneOffsetOutOfBounds {
                layer: layer as usize,
                plane: plane as usize,
                object_index: entry.object_index,
                offset: entry.offset,
                object_size: objects[entry.object_index as int].size,
            },
        )
    } else {
        None
    }
}

/// The fault of the first faulty plane of one layer, at or behind `from`.
pub open spec fn planes_fault(
    objects: Seq<Object>,
    layer: int,
    planes: Seq<Plane>,
    from: int,
) -> Option<ValidationError>
    decreases planes.len() - from,
{
    if from < 0 || from >= planes.len() {
        None
    } else if plane_fault(objects, layer, planes, from) is Some {
        plane_fault(objects, layer, planes, from)
    } else {
        planes_fault(objects, layer, planes, from + 1)
    }
}

/// What is wrong with layer `index`, if anything.
pub open spec fn layer_fault(
    objects: Seq<Object>,
    layers: Seq<LayerView>,
    index: int,
) -> Option<ValidationError> {
    let layer = layers[index];
    if layer.fourcc == 0 {
        Some(ValidationError::InvalidFourcc { index: index as usize })
    } else if layer.planes.len() == 0 {
        Some(ValidationError::EmptyPlanes { index: index as usize })
    } else if layer.planes.len() > AV_DRM_MAX_ENTRIES {
        Some(
            ValidationError::TooManyEntries {
                kind: "planes in one layer",
                actual: layer.planes.len() as usize,
                maximum: AV_DRM_MAX_ENTRIES,
            },
        )
    } else {
        planes_fault(objects, index, layer.planes, 0)
    }
}

/// The fault of the first faulty layer at or behind `from`.
pub open spec fn layers_fault(
    objects: Seq<Object>,
    layers: Seq<LayerView>,
    from: int,
) -> Option<ValidationError>
    decreases layers.len() - from,
{
    if from < 0 || from >= layers.len() {
        None
    } else if layer_fault(objects, layers, from) is Some {
        layer_fault(objects, layers, from)
    } else {
        layers_fault(objects, layers, from + 1)
    }
}

/// How many planes the first `count` layers hold together.
pub open spec fn plane_count(layers: Seq<LayerView>, count: int) -> nat
    decreases count,
{
    if count <= 0 {
        0
    } else {
        plane_count(layers, count - 1) + layers[count - 1].planes.len()
    }
}

/// Some plane lies in object `index`.
pub open spec fn is_referenced(layers: Seq<LayerView>, index: int) -> bool {
    exists|layer: int, plane: int|
        #![trigger layers[layer].planes[plane]]
        0 <= layer < layers.len() && 0 <= plane < layers[layer].planes.len()
            && layers[layer].planes[plane].object_index == index
}

/// The first object at or behind `from` in which no plane lies.
pub open spec fn unreferenced_object(view: DescriptorView, from: int) -> Option<int>
    decreases view.objects.len() - from,
{
    if from < 0 || from >= view.objects.len() {
        None
    } else if !is_referenced(view.layers, from) {
        Some(from)
    } else {
        unreferenced_object(view, from + 1)
    }
}

impl DescriptorView {
    /// What `Descriptor::validate` returns.
    pub open spec fn verdict(self) -> Result<(), ValidationError> {
        if self.version != 1 {
            Err(ValidationError::UnsupportedDescriptorVersion(self.version))
        } else if self.objects.len() == 0 {
            Err(ValidationError::EmptyObjects)
        } else if self.objects.len() > AV_DRM_MAX_ENTRIES {
            Err(
                ValidationError::TooManyEntries {
                    kind: "objects",
                    actual: self.objects.len() as usize,
                    maximum: AV_DRM_MAX_ENTRIES,
                },
            )
        } else if self.layers.len() == 0 {
            Err(ValidationError::EmptyLayers)
        } else if self.layers.len() > AV_DRM_MAX_ENTRIES {
            Err(
                ValidationError::TooManyEntries {
                    kind: "layers",
                    actual: self.layers.len() as usize,
                    maximum: AV_DRM_MAX_ENTRIES,
                },
            )
        } else if objects_fault(self.objects, 0) is Some {
            Err(objects_fault(self.objects, 0)->0)
        } else if layers_fault(self.objects, self.layers, 0) is Some {
            Err(layers_fault(self.objects, self.layers, 0)->0)
        } else if plane_count(self.layers, self.layers.len() as int) > AV_DRM_MAX_ENTRIES {
            Err(
                ValidationError::TooManyPlanes {
                    actual: plane_count(self.layers, self.layers.len() as int) as usize,
                    maximum: AV_DRM_MAX_ENTRIES,
                },
            )
        } else if unreferenced_object(self, 0) is Some {
            Err(
                ValidationError::UnreferencedObject {
                    index: unreferenced_object(self, 0)->0 as usize,
                },
            )
        } else {
            Ok(())
        }
    }

    /// The descriptor describes memory: every plane starts inside an object that exists, every
    /// object holds a plane, and the counts are within the limits of the AV DRM layout.
    pub open spec fn well_formed(self) -> bool {
        &&& self.version == 1
        &&& 0 < self.objects.len() <= AV_DRM_MAX_ENTRIES
        &&& 0 < self.layers.len() <= AV_DRM_MAX_ENTRIES
        &&& forall|index: int|
            0 <= index < self.objects.len() ==> (#[trigger] self.objects[index]).fd >= 0
                && self.objects[index].size > 0 && is_referenced(self.layers, index)
        &&& forall|layer: int|
            0 <= layer < self.layers.len() ==> (#[trigger] self.layers[layer]).fourcc != 0 && 0
                < self.layers[layer].planes.len() <= AV_DRM_MAX_ENTRIES
        &&& forall|layer: int, plane: int|
            0 <= layer < self.layers.len() && 0 <= plane < self.layers[layer].planes.len() ==> {
                let entry = #[trigger] self.layers[layer].planes[plane];
                entry.pitch > 0 && entry.object_index < self.objects.len() && entry.offset
                    < self.objects[entry.object_index as int].size
            }
        &&& plane_count(self.layers, self.layers.len() as int) <= AV_DRM_MAX_ENTRIES
    }
}

proof fn lemma_no_object_fault(objects: Seq<Object>, from: int)
    requires
        0 <= from,
    ensures
        objects_fault(objects, from) is None <==> forall|index: int|
            from <= index < objects.len() ==> object_fault(objects, index) is None,
    decreases objects.len() - from,
{
    if from < objects.len() {
        lemma_no_object_fault(objects, from + 1);
    }
}

proof fn lemma_no_plane_fault(objects: Seq<Object>, layer: int, planes: Seq<Plane>, from: int)
    requires
        0 <= from,
    ensures
        planes_fault(objects, layer, planes, from) is None <==> forall|plane: int|
            from <= plane < planes.len() ==> plane_fault(objects, layer, planes, plane) is None,
    decreases planes.len() - from,
{
    if from < planes.len() {
        lemma_no_plane_fault(objects, layer, planes, from + 1);
    }
}

proof fn lemma_no_layer_fault(objects: Seq<Object>, layers: Seq<LayerView>, from: int)
    requires
        0 <= from,
    ensures
        layers_fault(objects, layers, from) is None <==> forall|index: int|
            from <= index < layers.len() ==> layer_fault(objects, layers, index) is None,
    decreases layers.len() - from,
{
    if from < layers.len() {
        lemma_no_layer_fault(objects, layers, from + 1);
    }
}

proof fn lemma_all_referenced(view: DescriptorView, from: int)
    requires
        0 <= from,
    ensures
        unreferenced_object(view, from) is None <==> forall|index: int|
            from <= index < view.objects.len() ==> is_referenced(view.layers, index),
        unreferenced_object(view, from) matches Some(index) ==> from <= index < view.objects.len()
            && !is_referenced(view.layers, index),
    decreases view.objects.len() - from,
{
    if from < view.objects.len() {
        lemma_all_referenced(view, from + 1);
    }
}

/// Validation accepts exactly the descriptors that describe memory.
pub proof fn validation_accepts_exactly_well_formed_descriptors(view: DescriptorView)
    ensures
        view.verdict() is Ok <==> view.well_formed(),
{
    lemma_no_object_fault(view.objects, 0);
    lemma_no_layer_fault(view.objects, view.layers, 0);
    lemma_all_referenced(view, 0);
    assert forall|layer: int| 0 <= layer < view.layers.len() implies (planes_fault(
        view.objects,
        layer,
        view.layers[layer].planes,
        0,
    ) is None <==> forall|plane: int|
        0 <= plane < view.layers[layer].planes.len() ==> plane_fault(
            view.objects,
            layer,
            view.layers[layer].planes,
            plane,
        ) is None) by {
        lemma_no_plane_fault(view.objects, layer, view.layers[layer].planes, 0);
    }
    if view.verdict() is Ok {
        assert forall|layer: int, plane: int|
            0 <= layer < view.layers.len() && 0 <= plane < view.layers[layer].planes.len()
            implies {
            let entry = #[trigger] view.layers[layer].planes[plane];
            entry.pitch > 0 && entry.object_index < view.objects.len() && entry.offset
                < view.objects[entry.object_index as int].size
        } by {
            assert(layer_fault(view.objects, view.layers, layer) is None);
            assert(plane_fault(view.objects, layer, view.layers[layer].planes, plane) is None);
        }
        assert forall|layer: int| 0 <= layer < view.layers.len() implies (
        #[trigger] view.layers[layer]).fourcc != 0 && 0 < view.layers[layer].planes.len()
            <= AV_DRM_MAX_ENTRIES by {
            assert(layer_fault(view.objects, view.layers, layer) is None);
        }
        assert forall|index: int| 0 <= index < view.objects.len() implies (
        #[trigger] view.objects[index]).fd >= 0 && view.objects[index].size > 0 && is_referenced(
            view.layers,
            index,
        ) by {
            assert(object_fault(view.objects, index) is None);
        }
    }
    if view.well_formed() {
        assert forall|index: int| 0 <= index < view.objects.len() implies object_fault(
            view.objects,
            index,
        ) is None && is_referenced(view.layers, index) by {
            assert(view.objects[index].fd >= 0);
        }
        assert forall|layer: int| 0 <= layer < view.layers.len() implies layer_fault(
            view.objects,
            view.layers,
            layer,
        ) is None by {
            assert(view.layers[layer].fourcc != 0);
            assert forall|plane: int|
                0 <= plane < view.layers[layer].planes.len() implies plane_fault(
                view.objects,
                layer,
                view.layers[layer].planes,
                plane,
            ) is None by {
                let entry = view.layers[layer].planes[plane];
            }
        }
    }
}

impl Descriptor {
    fn check_objects(&self) -> (result: Result<(), ValidationError>)
        ensures
            result == (match objects_fault(self@.objects, 0) {
                Some(fault) => Err::<(), ValidationError>(fault),
                None => Ok(()),
            }),
    {
        let mut index: usize = 0;
        while index < self.objects.len()
            invariant
                index <= self.objects.len(),
                objects_fault(self@.objects, 0) == objects_fault(self@.objects, index as int),
            decreases self.objects.len() - index,
        {
            let object = self.objects[index];
            if object.fd < 0 {
                return Err(ValidationError::NegativeFd { index, fd: object.fd });
            }
            if object.size == 0 {
                return Err(ValidationError::ZeroObjectSize { index });
            }
            index += 1;
        }
        Ok(())
    }

    fn check_planes(&self, layer: usize) -> (result: Result<(), ValidationError>)
        requires
            layer < self.layers.len(),
        ensures
            result == (match planes_fault(
                self@.objects,
                layer as int,
                self@.layers[layer as int].planes,
                0,
            ) {
                Some(fault) => Err::<(), ValidationError>(fault),
                None => Ok(()),
            }),
    {
        let ghost planes = self@.layers[layer as int].planes;
        let mut plane: usize = 0;
        while plane < self.layers[layer as usize].planes.len()
            invariant
                layer < self.layers.len(),
                planes == self.layers[layer as int].planes@,
                plane <= planes.len(),
                planes_fault(self@.objects, layer as int, planes, 0) == planes_fault(
                    self@.objects,
                    layer as int,
                    planes,
                    plane as int,
                ),
            decreases planes.len() - plane,
        {
            let entry = self.layers[layer].planes[plane];
            if entry.pitch == 0 {
                return Err(ValidationError::ZeroPitch { layer, plane });
            }
            if entry.object_index as usize >= self.objects.len() {
                return Err(
                    ValidationError::InvalidObjectIndex {
                        layer,
                        plane,
                        object_index: entry.object_index,
                        object_count: self.objects.len(),
                    },
                );
            }
            let object = self.objects[entry.object_index as usize];
            if entry.offset >= object.size {
                return Err(
                    ValidationError::PlaneOffsetOutOfBounds {
                        layer,
                        plane,
                        object_index: entry.object_index,
                        offset: entry.offset,
                        object_size: object.size,
                    },
                );
            }
            plane += 1;
        }
        Ok(())
    }

    fn check_layers(&self) -> (result: Result<(), ValidationError>)
        ensures
            result == (match layers_fault(self@.objects, self@.layers, 0) {
                Some(fault) => Err::<(), ValidationError>(fault),
                None => Ok(()),
            }),
    {
        let mut index: usize = 0;
        while index < self.layers.len()
            invariant
                index <= self.layers.len(),
                layers_fault(self@.objects, self@.layers, 0) == layers_fault(
                    self@.objects,
                    self@.layers,
                    index as int,
                ),
            decreases self.layers.len() - index,
        {
            assert(self@.layers[index as int] == self.layers[index as int]@);
            let count = self.layers[index].planes.len();
            if self.layers[index].fourcc == 0 {
                return Err(ValidationError::InvalidFourcc { index });
            }
            if count == 0 {
                return Err(ValidationError::EmptyPlanes { index });
            }
            if count > AV_DRM_MAX_ENTRIES {
                return Err(
                    ValidationError::TooManyEntries {
                        kind: "planes in one layer",
                        actual: count,
                        maximum: AV_DRM_MAX_ENTRIES,
                    },
                );
            }
            match self.check_planes(index) {
                Ok(()) => {},
                Err(fault) => return Err(fault),
            }
            index += 1;
        }
        Ok(())
    }

    fn count_planes(&self) -> (count: usize)
        requires
            self.layers.len() <= AV_DRM_MAX_ENTRIES,
            forall|index: int|
                0 <= index < self.layers.len() ==> (#[trigger] self.layers[index]).planes.len()
                    <= AV_DRM_MAX_ENTRIES,
        ensures
            count == plane_count(self@.layers, self@.layers.len() as int),
    {
        let mut count: usize = 0;
        let mut index: usize = 0;
        while index < self.layers.len()
            invariant
                index <= self.layers.len() <= AV_DRM_MAX_ENTRIES,
                forall|index: int|
                    0 <= index < self.layers.len() ==> (#[trigger] self.layers[index]).planes.len()
                        <= AV_DRM_MAX_ENTRIES,
                count == plane_count(self@.layers, index as int),
                count <= index * AV_DRM_MAX_ENTRIES,
            decreases self.layers.len() - index,
        {
            assert(self@.layers[index as int] == self.layers[index as int]@);
            count += self.layers[index].planes.len();
            index += 1;
        }
        count
    }

    fn references(&self, object: usize) -> (referenced: bool)
        ensures
            referenced == is_referenced(self@.layers, object as int),
    {
        let mut layer: usize = 0;
        while layer < self.layers.len()
            invariant
                layer <= self.layers.len(),
                forall|before: int, plane: int|
                    #![trigger self@.layers[before].planes[plane]]
                    0 <= before < layer && 0 <= plane < self@.layers[before].planes.len()
                        ==> self@.layers[before].planes[plane].object_index != object,
            decreases self.layers.len() - layer,
        {
            let ghost planes = self@.layers[layer as int].planes;
            let mut plane: usize = 0;
            while plane < self.layers[layer].planes.len()
                invariant
                    layer < self.layers.len(),
                    planes == self@.layers[layer as int].planes,
                    planes == self.layers[layer as int].planes@,
                    plane <= planes.len(),
                    forall|before: int| 0 <= before < plane ==> planes[before].object_index
                        != object,
                decreases planes.len() - plane,
            {
                if self.layers[layer].planes[plane].object_index as usize == object {
                    assert(self@.layers[layer as int].planes[plane as int].object_index == object);
                    return true;
                }
                plane += 1;
            }
            layer += 1;
        }
        false
    }

    fn find_unreferenced(&self) -> (found: Option<usize>)
        ensures
            match found {
                Some(index) => unreferenced_object(self@, 0) == Some(index as int),
                None => unreferenced_object(self@, 0) is None,
            },
    {
        let mut index: usize = 0;
        while index < self.objects.len()
            invariant
                index <= self.objects.len(),
                unreferenced_object(self@, 0) == unreferenced_object(self@, index as int),
            decreases self.objects.len() - index,
        {
            if !self.references(index) {
                return Some(index);
            }
            index += 1;
        }
        None
    }

    /// Checks the version, the entry limits, every object and every plane.
    pub fn validate(&self) -> (result: Result<(), ValidationError>)
        ensures
            result == self@.verdict(),
            result is Ok <==> self@.well_formed(),
    {
        proof {
            validation_accepts_exactly_well_formed_descriptors(self@);
        }
        if self.version != 1 {
            return Err(ValidationError::UnsupportedDescriptorVersion(self.version));
        }
        if self.objects.len() == 0 {
            return Err(ValidationError::EmptyObjects);
        }
        if self.objects.len() > AV_DRM_MAX_ENTRIES {
            return Err(
                ValidationError::TooManyEntries {
                    kind: "objects",
                    actual: self.objects.len(),
                    maximum: AV_DRM_MAX_ENTRIES,
                },
            );
        }
        if self.layers.len() == 0 {
            return Err(ValidationError::EmptyLayers);
        }
        if self.layers.len() > AV_DRM_MAX_ENTRIES {
            return Err(
                ValidationError::TooManyEntries {
                    kind: "layers",
                    actual: self.layers.len(),
                    maximum: AV_DRM_MAX_ENTRIES,
                },
            );
        }
        match self.check_objects() {
            Ok(()) => {},
            Err(fault) => return Err(fault),
        }
        match self.check_layers() {
            Ok(()) => {},
            Err(fault) => return Err(fault),
        }
        proof {
            lemma_no_layer_fault(self@.objects, self@.layers, 0);
            assert forall|index: int| 0 <= index < self.layers.len() implies (
            #[trigger] self.layers[index]).planes.len() <= AV_DRM_MAX_ENTRIES by {
                assert(layer_fault(self@.objects, self@.layers, index) is None);
                assert(self@.layers[index] == self.layers[index]@);
            }
        }
        let total_planes: usize = self.count_planes();
        if total_planes > AV_DRM_MAX_ENTRIES {
            return Err(
                ValidationError::TooManyPlanes {
                    actual: total_planes,
                    maximum: AV_DRM_MAX_ENTRIES,
                },
            );
        }
        match self.find_unreferenced() {
            Some(index) => Err(ValidationError::UnreferencedObject { index }),
            None => Ok(()),
        }
    }

    /// `duplicate` may be called on every file descriptor, where the descriptor is valid.
    pub open spec fn admits<H, D: Fn(i32) -> Result<H, std::io::Error>>(
        self,
        duplicate: D,
    ) -> bool {
        self@.verdict() is Ok ==> forall|index: int|
            0 <= index < self.objects.len() ==> call_requires(
                duplicate,
                ((#[trigger] self.objects[index]).fd,),
            )
    }

    /// Begins to duplicate the file descriptors. A descriptor that is not valid is refused before
    /// any of them is duplicated.
    pub fn begin_duplication<H>(&self) -> (result: Result<Duplication<H>, ValidationError>)
        ensures
            match self@.verdict() {
                Ok(()) => result matches Ok(duplication) && duplication.objects.len() == 0
                    && duplication.fits(*self),
                Err(fault) => result == Err::<Duplication<H>, _>(fault),
            },
    {
        match self.validate() {
            Ok(()) => Ok(Duplication { objects: Vec::new() }),
            Err(fault) => Err(fault),
        }
    }

    /// Duplicates every object's file descriptor with `duplicate`, in order, and keeps the rest
    /// of the description. The first failure ends the work, and what was duplicated is dropped.
    pub fn duplicate_with<H, D>(&self, duplicate: D) -> (result: Result<
        OwnedDescriptor<H>,
        DuplicateError,
    >) where D: Fn(i32) -> Result<H, std::io::Error>
        requires
            self.admits(duplicate),
        ensures
            duplication_outcome(*self, duplicate, result),
    {
        let mut duplication = match self.begin_duplication() {
            Ok(duplication) => duplication,
            Err(fault) => return Err(DuplicateError::InvalidFrame(fault)),
        };
        loop
            invariant
                self@.verdict() is Ok,
                self.admits(duplicate),
                duplication.fits(*self),
                duplicated(
                    duplicate,
                    self.objects@.take(duplication.objects.len() as int),
                    duplication.handles(),
                ),
            ensures
                duplication.due(*self) is None,
            decreases self.objects.len() - duplication.objects.len(),
        {
            let fd: i32 = match duplication.next(self) {
                Some(fd) => fd,
                None => break,
            };
            let ghost before = duplication;
            match duplication.answered(self, duplicate(fd)) {
                Ok(next) => {
                    duplication = next;
                    assert(duplication.handles() =~= before.handles().push(
                        duplication.handles().last(),
                    ));
                },
                Err(error) => return Err(error),
            }
        }
        assert(self.objects@.take(duplication.objects.len() as int) =~= self.objects@);
        Ok(duplication.finish(self))
    }

    /// Duplicates the borrowed file descriptors, so that the result may be kept after the current
    /// call. `duplicate` is the close-on-exec duplication of the operating system.
    pub fn duplicate_cloexec<H, D>(&self, duplicate: D) -> (result: Result<
        OwnedDescriptor<H>,
        DuplicateError,
    >) where D: Fn(i32) -> Result<H, std::io::Error>
        requires
            self.admits(duplicate),
        ensures
            duplication_outcome(*self, duplicate, result),
    {
        self.duplicate_with(duplicate)
    }
}

} // verus!
