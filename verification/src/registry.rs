use vstd::prelude::*;
use crate::descriptor::{
    DescriptorCache, DescriptorCacheModel, model_wf, in_use, can_allocate, spec_allocate,
    spec_release, law_allocate_fresh, law_release_frees,
};
use crate::image::ImageInfo;
use crate::resource::{BufferInfo, TransferMode};

verus! {

/// Handle to a buffer of the registry.
pub struct BufferHandle {
    host_entity: usize,
}

/// Handle to an image of the registry.
pub struct ImageHandle {
    host_entity: usize,
}

/// A handle names the entity that holds its resource.
pub trait ResourceHandle {
    fn host_entity(&self) -> usize;
}

impl BufferHandle {
    pub closed spec fn id(&self) -> usize {
        self.host_entity
    }
}

impl ImageHandle {
    pub closed spec fn id(&self) -> usize {
        self.host_entity
    }
}

impl ResourceHandle for BufferHandle {
    fn host_entity(&self) -> (r: usize)
        ensures
            r == self.id(),
    {
        self.host_entity
    }
}

impl ResourceHandle for ImageHandle {
    fn host_entity(&self) -> (r: usize)
        ensures
            r == self.id(),
    {
        self.host_entity
    }
}

/// A storage buffer: its creation info, its slot in the buffer binding, and
/// what the device holds for it.
pub struct Buffer<B> {
    pub info: BufferInfo,
    pub descriptor_index: u32,
    pub payload: B,
}

/// A view of an image: its slot in the image bindings and the device's view.
#[derive(Clone, Copy)]
pub struct ImageView<V> {
    pub descriptor_index: u32,
    pub inner: V,
}

/// An image: its creation info, what the device holds for it, and its views.
pub struct Image<I, V> {
    pub info: ImageInfo,
    pub payload: I,
    pub image_views: Vec<ImageView<V>>,
}

impl<I, V: Copy> Image<I, V> {
    /// The view at `index`.
    pub fn view(&self, index: u32) -> (r: ImageView<V>)
        requires
            (index as int) < self.image_views@.len(),
        ensures
            r == self.image_views@[index as int],
    {
        self.image_views[index as usize]
    }
}

/// What an entity of the registry holds.
pub enum Slot<B, I, V> {
    /// The entity was despawned.
    Empty,
    Buffer(Buffer<B>),
    Image(Image<I, V>),
}

/// The abstract value of an image: its views as a sequence.
pub struct ImageModel<I, V> {
    pub info: ImageInfo,
    pub payload: I,
    pub views: Seq<ImageView<V>>,
}

/// The abstract value of an entity.
pub enum SlotModel<B, I, V> {
    Empty,
    Buffer(Buffer<B>),
    Image(ImageModel<I, V>),
}

pub open spec fn image_model<I, V>(image: Image<I, V>) -> ImageModel<I, V> {
    ImageModel { info: image.info, payload: image.payload, views: image.image_views@ }
}

pub open spec fn slot_model<B, I, V>(slot: Slot<B, I, V>) -> SlotModel<B, I, V> {
    match slot {
        Slot::Empty => SlotModel::Empty,
        Slot::Buffer(b) => SlotModel::Buffer(b),
        Slot::Image(image) => SlotModel::Image(image_model(image)),
    }
}

/// Why a resource request is refused.
#[derive(Clone, Copy, Debug, PartialEq, Eq, Structural)]
pub enum ResourceError {
    BufferNotFound,
    /// The entity to label holds no image.
    ImageNotFound,
    /// The entity asked for holds no image.
    NotAnImage,
    BufferAlreadySynchronized,
    ImageAlreadySynchronized,
    BufferNotShaderMutable,
    ImageNotShaderMutable,
    BufferSizeMismatch,
}

impl ResourceError {
    pub fn message(&self) -> (r: &'static str)
        ensures
            *self == ResourceError::BufferNotFound ==> r@ == "Buffer not found."@,
            *self == ResourceError::ImageNotFound ==> r@ == "Image not found."@,
            *self == ResourceError::NotAnImage ==> r@ == "Resource is not an Image."@,
            *self == ResourceError::BufferAlreadySynchronized ==> r@
                == "Buffer resource already synchronized."@,
            *self == ResourceError::ImageAlreadySynchronized ==> r@
                == "Image resource already synchronized."@,
            *self == ResourceError::BufferNotShaderMutable ==> r@
                == "Buffer resource must be created with shader mutability enabled."@,
            *self == ResourceError::ImageNotShaderMutable ==> r@
                == "Image resource must be created with shader mutability enabled."@,
            *self == ResourceError::BufferSizeMismatch ==> r@ == "does not match buffer size."@,
    {
        match self {
            ResourceError::BufferNotFound => "Buffer not found.",
            ResourceError::ImageNotFound => "Image not found.",
            ResourceError::NotAnImage => "Resource is not an Image.",
            ResourceError::BufferAlreadySynchronized => "Buffer resource already synchronized.",
            ResourceError::ImageAlreadySynchronized => "Image resource already synchronized.",
            ResourceError::BufferNotShaderMutable => "Buffer resource must be created with shader mutability enabled.",
            ResourceError::ImageNotShaderMutable => "Image resource must be created with shader mutability enabled.",
            ResourceError::BufferSizeMismatch => "does not match buffer size.",
        }
    }
}

/// The abstract state of a registry: its entities, the sync label of each
/// entity, and the two descriptor slot allocators.
pub struct RegistryModel<B, I, V> {
    pub entities: Seq<SlotModel<B, I, V>>,
    pub labels: Seq<Option<u64>>,
    pub buffer_descriptors: DescriptorCacheModel,
    pub image_descriptors: DescriptorCacheModel,
}

pub open spec fn is_buffer<B, I, V>(m: RegistryModel<B, I, V>, id: int) -> bool {
    0 <= id < m.entities.len() && m.entities[id] is Buffer
}

pub open spec fn is_image<B, I, V>(m: RegistryModel<B, I, V>, id: int) -> bool {
    0 <= id < m.entities.len() && m.entities[id] is Image
}

pub open spec fn is_live<B, I, V>(m: RegistryModel<B, I, V>, id: int) -> bool {
    0 <= id < m.entities.len() && !(m.entities[id] is Empty)
}

pub open spec fn buffer_descriptor<B, I, V>(m: RegistryModel<B, I, V>, id: int) -> u32 {
    m.entities[id]->Buffer_0.descriptor_index
}

pub open spec fn image_descriptor<B, I, V>(m: RegistryModel<B, I, V>, id: int) -> u32 {
    m.entities[id]->Image_0.views[0].descriptor_index
}

/// The invariant of a registry: each live buffer holds its own slot of the
/// buffer binding, each live image one view with its own slot of the image
/// bindings, these slots are in use in their allocators, and each sync label
/// names at most one entity, a live one.
pub open spec fn registry_wf<B, I, V>(m: RegistryModel<B, I, V>) -> bool {
    &&& m.entities.len() == m.labels.len()
    &&& model_wf(m.buffer_descriptors)
    &&& model_wf(m.image_descriptors)
    &&& buffers_wf(m)
    &&& images_wf(m)
    &&& labels_wf(m)
}

/// Each live buffer holds a buffer slot in use, and no two share one.
pub open spec fn buffers_wf<B, I, V>(m: RegistryModel<B, I, V>) -> bool {
    &&& forall|i: int| #[trigger] is_buffer(m, i) ==> in_use(m.buffer_descriptors).contains(buffer_descriptor(m, i))
    &&& forall|i: int, j: int| #[trigger] is_buffer(m, i) && #[trigger] is_buffer(m, j) && i != j
        ==> buffer_descriptor(m, i) != buffer_descriptor(m, j)
}

/// Each live image has one view, on an image slot in use, and no two
/// images share one.
pub open spec fn images_wf<B, I, V>(m: RegistryModel<B, I, V>) -> bool {
    &&& forall|i: int| #[trigger] is_image(m, i) ==> m.entities[i]->Image_0.views.len() == 1
        && in_use(m.image_descriptors).contains(image_descriptor(m, i))
    &&& forall|i: int, j: int| #[trigger] is_image(m, i) && #[trigger] is_image(m, j) && i != j
        ==> image_descriptor(m, i) != image_descriptor(m, j)
}

/// Labels sit on live entities, and no label sits on two.
pub open spec fn labels_wf<B, I, V>(m: RegistryModel<B, I, V>) -> bool {
    &&& forall|i: int| 0 <= i < m.labels.len() && (#[trigger] m.labels[i]) is Some ==> is_live(m, i)
    &&& forall|i: int, j: int| 0 <= i < m.labels.len() && 0 <= j < m.labels.len() && i != j
        && (#[trigger] m.labels[i]) is Some ==> m.labels[i] != #[trigger] m.labels[j]
}

/// The buffer of entity `id`, if it holds one.
pub open spec fn spec_get_buffer<B, I, V>(m: RegistryModel<B, I, V>, id: usize) -> Option<Buffer<B>> {
    if is_buffer(m, id as int) {
        Some(m.entities[id as int]->Buffer_0)
    } else {
        None
    }
}

/// The image of entity `id`, if it holds one.
pub open spec fn spec_get_image<B, I, V>(m: RegistryModel<B, I, V>, id: usize) -> Option<ImageModel<I, V>> {
    if is_image(m, id as int) {
        Some(m.entities[id as int]->Image_0)
    } else {
        None
    }
}

/// Creating a buffer spawns a new entity, after all others, holding the
/// buffer with the buffer slot that its allocator hands out.
pub open spec fn spec_create_buffer<B, I, V>(m: RegistryModel<B, I, V>, info: BufferInfo, payload: B) -> (
    RegistryModel<B, I, V>,
    usize,
) {
    let (bd, d) = spec_allocate(m.buffer_descriptors);
    (
        RegistryModel {
            entities: m.entities.push(SlotModel::Buffer(Buffer { info, descriptor_index: d, payload })),
            labels: m.labels.push(None),
            buffer_descriptors: bd,
            image_descriptors: m.image_descriptors,
        },
        m.entities.len() as usize,
    )
}

/// Creating an image spawns a new entity holding the image with one view,
/// whose image slot its allocator hands out.
pub open spec fn spec_create_image<B, I, V>(
    m: RegistryModel<B, I, V>,
    info: ImageInfo,
    payload: I,
    view: V,
) -> (RegistryModel<B, I, V>, usize) {
    let (imd, d) = spec_allocate(m.image_descriptors);
    (
        RegistryModel {
            entities: m.entities.push(
                SlotModel::Image(
                    ImageModel {
                        info,
                        payload,
                        views: seq![ImageView { descriptor_index: d, inner: view }],
                    },
                ),
            ),
            labels: m.labels.push(None),
            buffer_descriptors: m.buffer_descriptors,
            image_descriptors: imd,
        },
        m.entities.len() as usize,
    )
}


/// Destroying a buffer empties its entity, drops the entity's label and gives
/// its buffer slot back; an entity that holds no buffer is refused.
pub open spec fn spec_destroy_buffer<B, I, V>(m: RegistryModel<B, I, V>, id: usize) -> (
    RegistryModel<B, I, V>,
    Result<Buffer<B>, ResourceError>,
) {
    if is_buffer(m, id as int) {
        let b = m.entities[id as int]->Buffer_0;
        (
            RegistryModel {
                entities: m.entities.update(id as int, SlotModel::Empty),
                labels: m.labels.update(id as int, None),
                buffer_descriptors: spec_release(m.buffer_descriptors, b.descriptor_index),
                image_descriptors: m.image_descriptors,
            },
            Ok(b),
        )
    } else {
        (m, Err(ResourceError::BufferNotFound))
    }
}

/// Gives back the slots of the views `views[k..]`, in order.
pub open spec fn spec_release_views<V>(d: DescriptorCacheModel, views: Seq<ImageView<V>>) -> DescriptorCacheModel
    decreases views.len(),
{
    if views.len() == 0 {
        d
    } else {
        spec_release_views(spec_release(d, views[0].descriptor_index), views.drop_first())
    }
}

/// Destroying an image empties its entity, drops the entity's label and gives
/// back the slots of its views; an entity that holds no image is refused.
pub open spec fn spec_destroy_image<B, I, V>(m: RegistryModel<B, I, V>, id: usize) -> (
    RegistryModel<B, I, V>,
    Result<ImageModel<I, V>, ResourceError>,
) {
    if is_image(m, id as int) {
        let image = m.entities[id as int]->Image_0;
        (
            RegistryModel {
                entities: m.entities.update(id as int, SlotModel::Empty),
                labels: m.labels.update(id as int, None),
                buffer_descriptors: m.buffer_descriptors,
                image_descriptors: spec_release_views(m.image_descriptors, image.views),
            },
            Ok(image),
        )
    } else {
        (m, Err(ResourceError::NotAnImage))
    }
}

/// The labels after `label` moves to entity `id`: `id` gets it and whichever
/// entity had it loses it.
pub open spec fn moved_label(labels: Seq<Option<u64>>, label: u64, id: int) -> Seq<Option<u64>> {
    Seq::new(
        labels.len(),
        |j: int|
            if j == id {
                Some(label)
            } else if labels[j] == Some(label) {
                None
            } else {
                labels[j]
            },
    )
}

/// Labelling a buffer: refused when the entity is already labelled, when it
/// holds no buffer, or when the buffer is not shader mutable; otherwise the
/// label moves to it.
pub open spec fn spec_set_buffer_label<B, I, V>(m: RegistryModel<B, I, V>, label: u64, id: usize) -> (
    RegistryModel<B, I, V>,
    Result<(), ResourceError>,
) {
    if (id as int) < m.labels.len() && m.labels[id as int] is Some {
        (m, Err(ResourceError::BufferAlreadySynchronized))
    } else if !is_buffer(m, id as int) {
        (m, Err(ResourceError::BufferNotFound))
    } else if !m.entities[id as int]->Buffer_0.info.shader_mutable {
        (m, Err(ResourceError::BufferNotShaderMutable))
    } else {
        (RegistryModel { labels: moved_label(m.labels, label, id as int), ..m }, Ok(()))
    }
}

/// Labelling an image, as for buffers.
pub open spec fn spec_set_image_label<B, I, V>(m: RegistryModel<B, I, V>, label: u64, id: usize) -> (
    RegistryModel<B, I, V>,
    Result<(), ResourceError>,
) {
    if (id as int) < m.labels.len() && m.labels[id as int] is Some {
        (m, Err(ResourceError::ImageAlreadySynchronized))
    } else if !is_image(m, id as int) {
        (m, Err(ResourceError::ImageNotFound))
    } else if !m.entities[id as int]->Image_0.info.shader_mutable {
        (m, Err(ResourceError::ImageNotShaderMutable))
    } else {
        (RegistryModel { labels: moved_label(m.labels, label, id as int), ..m }, Ok(()))
    }
}

/// The entity that carries `label`, if any.
pub open spec fn spec_label_owner<B, I, V>(m: RegistryModel<B, I, V>, label: u64) -> Option<usize> {
    if exists|j: usize| (j as int) < m.labels.len() && m.labels[j as int] == Some(label) {
        Some(choose|j: usize| (j as int) < m.labels.len() && m.labels[j as int] == Some(label))
    } else {
        None
    }
}

// ---------------------------------------------------------------------------
// Invariant preservation

/// The buffers stay well formed when every live buffer is an entity that
/// did not change and the buffer slots did not change.
proof fn lemma_buffers_kept<B, I, V>(m: RegistryModel<B, I, V>, m2: RegistryModel<B, I, V>)
    requires
        buffers_wf(m),
        m2.buffer_descriptors == m.buffer_descriptors,
        forall|i: int| #[trigger] is_buffer(m2, i) ==> 0 <= i < m.entities.len() && m2.entities[i] == m.entities[i],
    ensures
        buffers_wf(m2),
{
    assert forall|i: int| #[trigger] is_buffer(m2, i) implies in_use(m2.buffer_descriptors).contains(
        buffer_descriptor(m2, i),
    ) by {
        assert(is_buffer(m, i));
    }
    assert forall|i: int, j: int| #[trigger] is_buffer(m2, i) && #[trigger] is_buffer(m2, j) && i != j
        implies buffer_descriptor(m2, i) != buffer_descriptor(m2, j) by {
        assert(is_buffer(m, i));
        assert(is_buffer(m, j));
    }
}

/// The images stay well formed when every live image is an entity that did
/// not change and the image slots did not change.
proof fn lemma_images_kept<B, I, V>(m: RegistryModel<B, I, V>, m2: RegistryModel<B, I, V>)
    requires
        images_wf(m),
        m2.image_descriptors == m.image_descriptors,
        forall|i: int| #[trigger] is_image(m2, i) ==> 0 <= i < m.entities.len() && m2.entities[i] == m.entities[i],
    ensures
        images_wf(m2),
{
    assert forall|i: int| #[trigger] is_image(m2, i) implies m2.entities[i]->Image_0.views.len() == 1
        && in_use(m2.image_descriptors).contains(image_descriptor(m2, i)) by {
        assert(is_image(m, i));
    }
    assert forall|i: int, j: int| #[trigger] is_image(m2, i) && #[trigger] is_image(m2, j) && i != j
        implies image_descriptor(m2, i) != image_descriptor(m2, j) by {
        assert(is_image(m, i));
        assert(is_image(m, j));
    }
}

/// The labels stay well formed when every label sits where it sat, on an
/// entity that did not change.
proof fn lemma_labels_kept<B, I, V>(m: RegistryModel<B, I, V>, m2: RegistryModel<B, I, V>)
    requires
        labels_wf(m),
        m.labels.len() <= m2.labels.len() <= m2.entities.len(),
        forall|i: int| 0 <= i < m2.labels.len() && (#[trigger] m2.labels[i]) is Some ==> i < m.labels.len()
            && m2.labels[i] == m.labels[i] && m2.entities[i] == m.entities[i],
    ensures
        labels_wf(m2),
{
    assert forall|i: int| 0 <= i < m2.labels.len() && (#[trigger] m2.labels[i]) is Some implies is_live(
        m2,
        i,
    ) by {
        assert(m.labels[i] is Some);
    }
    assert forall|i: int, j: int| 0 <= i < m2.labels.len() && 0 <= j < m2.labels.len() && i != j
        && (#[trigger] m2.labels[i]) is Some implies m2.labels[i] != #[trigger] m2.labels[j] by {
        assert(m.labels[i] is Some);
        if m2.labels[j] is Some {
            assert(m2.labels[j] == m.labels[j]);
        }
    }
}

proof fn lemma_create_buffer_wf<B, I, V>(m: RegistryModel<B, I, V>, info: BufferInfo, payload: B)
    requires
        registry_wf(m),
        can_allocate(m.buffer_descriptors),
        m.entities.len() < usize::MAX,
    ensures
        registry_wf(spec_create_buffer(m, info, payload).0),
{
    law_allocate_fresh(m.buffer_descriptors);
    let (m2, id) = spec_create_buffer(m, info, payload);
    let n = m.entities.len() as int;
    assert forall|i: int| #[trigger] is_buffer(m2, i) implies in_use(m2.buffer_descriptors).contains(
        buffer_descriptor(m2, i),
    ) by {
        if i < n {
            assert(is_buffer(m, i));
        }
    }
    assert forall|i: int, j: int| #[trigger] is_buffer(m2, i) && #[trigger] is_buffer(m2, j) && i != j
        implies buffer_descriptor(m2, i) != buffer_descriptor(m2, j) by {
        if i < n {
            assert(is_buffer(m, i));
        }
        if j < n {
            assert(is_buffer(m, j));
        }
    }
    lemma_images_kept(m, m2);
    lemma_labels_kept(m, m2);
}

proof fn lemma_create_image_wf<B, I, V>(m: RegistryModel<B, I, V>, info: ImageInfo, payload: I, view: V)
    requires
        registry_wf(m),
        can_allocate(m.image_descriptors),
        m.entities.len() < usize::MAX,
    ensures
        registry_wf(spec_create_image(m, info, payload, view).0),
{
    law_allocate_fresh(m.image_descriptors);
    let (m2, id) = spec_create_image(m, info, payload, view);
    let n = m.entities.len() as int;
    lemma_buffers_kept(m, m2);
    assert forall|i: int| #[trigger] is_image(m2, i) implies m2.entities[i]->Image_0.views.len() == 1
        && in_use(m2.image_descriptors).contains(image_descriptor(m2, i)) by {
        if i < n {
            assert(is_image(m, i));
        }
    }
    assert forall|i: int, j: int| #[trigger] is_image(m2, i) && #[trigger] is_image(m2, j) && i != j
        implies image_descriptor(m2, i) != image_descriptor(m2, j) by {
        if i < n {
            assert(is_image(m, i));
        }
        if j < n {
            assert(is_image(m, j));
        }
    }
    lemma_labels_kept(m, m2);
}

proof fn lemma_destroy_buffer_wf<B, I, V>(m: RegistryModel<B, I, V>, id: usize)
    requires
        registry_wf(m),
    ensures
        registry_wf(spec_destroy_buffer(m, id).0),
{
    if is_buffer(m, id as int) {
        let k = id as int;
        let d = buffer_descriptor(m, k);
        law_release_frees(m.buffer_descriptors, d);
        let m2 = spec_destroy_buffer(m, id).0;
        assert forall|i: int| #[trigger] is_buffer(m2, i) implies in_use(m2.buffer_descriptors).contains(
            buffer_descriptor(m2, i),
        ) by {
            assert(is_buffer(m, i));
            assert(i != k);
        }
        assert forall|i: int, j: int| #[trigger] is_buffer(m2, i) && #[trigger] is_buffer(m2, j) && i
            != j implies buffer_descriptor(m2, i) != buffer_descriptor(m2, j) by {
            assert(is_buffer(m, i));
            assert(is_buffer(m, j));
        }
        lemma_images_kept(m, m2);
        lemma_labels_kept(m, m2);
    }
}

proof fn lemma_destroy_image_wf<B, I, V>(m: RegistryModel<B, I, V>, id: usize)
    requires
        registry_wf(m),
    ensures
        registry_wf(spec_destroy_image(m, id).0),
{
    if is_image(m, id as int) {
        let k = id as int;
        let image = m.entities[k]->Image_0;
        let d = image_descriptor(m, k);
        law_release_frees(m.image_descriptors, d);
        assert(image.views.drop_first().len() == 0);
        assert(spec_release_views(m.image_descriptors, image.views) == spec_release(
            m.image_descriptors,
            d,
        )) by {
            reveal_with_fuel(spec_release_views, 2);
        }
        let m2 = spec_destroy_image(m, id).0;
        lemma_buffers_kept(m, m2);
        assert forall|i: int| #[trigger] is_image(m2, i) implies m2.entities[i]->Image_0.views.len()
            == 1 && in_use(m2.image_descriptors).contains(image_descriptor(m2, i)) by {
            assert(is_image(m, i));
            assert(i != k);
        }
        assert forall|i: int, j: int| #[trigger] is_image(m2, i) && #[trigger] is_image(m2, j) && i
            != j implies image_descriptor(m2, i) != image_descriptor(m2, j) by {
            assert(is_image(m, i));
            assert(is_image(m, j));
        }
        lemma_labels_kept(m, m2);
    }
}

proof fn lemma_moved_label_wf<B, I, V>(m: RegistryModel<B, I, V>, label: u64, id: usize)
    requires
        registry_wf(m),
        is_live(m, id as int),
    ensures
        registry_wf(RegistryModel { labels: moved_label(m.labels, label, id as int), ..m }),
{
    let m2 = RegistryModel { labels: moved_label(m.labels, label, id as int), ..m };
    lemma_buffers_kept(m, m2);
    lemma_images_kept(m, m2);
    assert forall|i: int| 0 <= i < m2.labels.len() && (#[trigger] m2.labels[i]) is Some implies is_live(
        m2,
        i,
    ) by {
        if i != id as int {
            assert(m.labels[i] is Some);
        }
    }
    assert forall|i: int, j: int| 0 <= i < m2.labels.len() && 0 <= j < m2.labels.len() && i != j
        && (#[trigger] m2.labels[i]) is Some implies m2.labels[i] != #[trigger] m2.labels[j] by {
        let k = id as int;
        if i != k && j != k {
            assert(m.labels[i] is Some);
            assert(m2.labels[i] == m.labels[i]);
        } else if i == k {
            assert(m2.labels[j] == if m.labels[j] == Some(label) { None } else { m.labels[j] });
        } else {
            assert(m2.labels[i] == if m.labels[i] == Some(label) { None } else { m.labels[i] });
        }
    }
}

proof fn lemma_set_buffer_label_wf<B, I, V>(m: RegistryModel<B, I, V>, label: u64, id: usize)
    requires
        registry_wf(m),
    ensures
        registry_wf(spec_set_buffer_label(m, label, id).0),
{
    if spec_set_buffer_label(m, label, id).1 is Ok {
        lemma_moved_label_wf(m, label, id);
    }
}

proof fn lemma_set_image_label_wf<B, I, V>(m: RegistryModel<B, I, V>, label: u64, id: usize)
    requires
        registry_wf(m),
    ensures
        registry_wf(spec_set_image_label(m, label, id).0),
{
    if spec_set_image_label(m, label, id).1 is Ok {
        lemma_moved_label_wf(m, label, id);
    }
}

// ---------------------------------------------------------------------------
// The registry

/// The resources of a device: buffers and images, each on an entity of its
/// own, the sync label of each entity, and the descriptor slot allocators of
/// the buffer binding and of the image bindings.
pub struct ResourceRegistry<B, I, V> {
    state: RegistryState<B, I, V>,
}

impl<B, I, V> ResourceRegistry<B, I, V> {
    /// The registry stays well formed whatever is done to it.
    #[verifier::type_invariant]
    spec fn wf(self) -> bool {
        registry_wf(self.state@)
    }
}

impl<B, I, V> View for ResourceRegistry<B, I, V> {
    type V = RegistryModel<B, I, V>;

    closed spec fn view(&self) -> RegistryModel<B, I, V> {
        self.state@
    }
}

/// The entities, labels and slot allocators, without the invariant.
struct RegistryState<B, I, V> {
    entities: Vec<Slot<B, I, V>>,
    labels: Vec<Option<u64>>,
    buffer_descriptors: DescriptorCache,
    image_descriptors: DescriptorCache,
}

impl<B, I, V> View for RegistryState<B, I, V> {
    type V = RegistryModel<B, I, V>;

    closed spec fn view(&self) -> RegistryModel<B, I, V> {
        RegistryModel {
            entities: self.entities@.map_values(|s: Slot<B, I, V>| slot_model(s)),
            labels: self.labels@,
            buffer_descriptors: self.buffer_descriptors@,
            image_descriptors: self.image_descriptors@,
        }
    }
}

impl<B, I, V> RegistryState<B, I, V> {
    /// An empty registry.
    fn new() -> (r: Self)
        ensures
            registry_wf(r@),
            r@.entities.len() == 0,
            r@.buffer_descriptors == (DescriptorCacheModel { next: 0, free: Seq::empty() }),
            r@.image_descriptors == (DescriptorCacheModel { next: 0, free: Seq::empty() }),
    {
        let r = RegistryState {
            entities: Vec::new(),
            labels: Vec::new(),
            buffer_descriptors: DescriptorCache::new(),
            image_descriptors: DescriptorCache::new(),
        };
        assert(r@.buffer_descriptors.free =~= Seq::<u32>::empty());
        assert(r@.image_descriptors.free =~= Seq::<u32>::empty());
        r
    }

    /// Whether a buffer can be created without running out of buffer slots
    /// or entity ids.
    fn can_create_buffer(&self) -> (r: bool)
        ensures
            r == (can_allocate(self@.buffer_descriptors) && self@.entities.len() < usize::MAX),
    {
        self.buffer_descriptors.can_allocate() && self.entities.len() < usize::MAX
    }

    /// Whether an image can be created without running out of image slots or
    /// entity ids.
    fn can_create_image(&self) -> (r: bool)
        ensures
            r == (can_allocate(self@.image_descriptors) && self@.entities.len() < usize::MAX),
    {
        self.image_descriptors.can_allocate() && self.entities.len() < usize::MAX
    }

    /// Whether the entity is in the registry and not despawned.
    fn is_live(&self, id: usize) -> (r: bool)
        ensures
            r == is_live(self@, id as int),
    {
        if id < self.entities.len() {
            match &self.entities[id] {
                Slot::Empty => false,
                _ => true,
            }
        } else {
            false
        }
    }

    /// Registers a new buffer, as `spec_create_buffer` states.
    fn create_buffer(&mut self, info: BufferInfo, payload: B) -> (h: BufferHandle)
        requires
            registry_wf(old(self)@),
            can_allocate(old(self)@.buffer_descriptors),
            old(self)@.entities.len() < usize::MAX,
        ensures
            (final(self)@, h.id()) == spec_create_buffer(old(self)@, info, payload),
            registry_wf(final(self)@),
    {
        proof {
            lemma_create_buffer_wf(self@, info, payload);
        }
        let ghost old_entities = self.entities@;
        let id = self.entities.len();
        let descriptor_index = self.buffer_descriptors.allocate();
        self.entities.push(Slot::Buffer(Buffer { info, descriptor_index, payload }));
        self.labels.push(None);
        assert(self@.entities =~= spec_create_buffer(old(self)@, info, payload).0.entities);
        BufferHandle { host_entity: id }
    }

    /// Registers a new image with one view, as `spec_create_image` states.
    fn create_image(&mut self, info: ImageInfo, payload: I, view: V) -> (h: ImageHandle)
        requires
            registry_wf(old(self)@),
            can_allocate(old(self)@.image_descriptors),
            old(self)@.entities.len() < usize::MAX,
        ensures
            (final(self)@, h.id()) == spec_create_image(old(self)@, info, payload, view),
            registry_wf(final(self)@),
    {
        proof {
            lemma_create_image_wf(self@, info, payload, view);
        }
        let id = self.entities.len();
        let descriptor_index = self.image_descriptors.allocate();
        let mut image_views: Vec<ImageView<V>> = Vec::new();
        image_views.push(ImageView { descriptor_index, inner: view });
        self.entities.push(Slot::Image(Image { info, payload, image_views }));
        self.labels.push(None);
        assert(image_views@ =~= seq![ImageView { descriptor_index, inner: view }]);
        assert(self@.entities =~= spec_create_image(old(self)@, info, payload, view).0.entities);
        ImageHandle { host_entity: id }
    }

    /// The buffer of a handle; refused when its entity holds no buffer.
    fn get_buffer(&self, handle: &BufferHandle) -> (r: Result<&Buffer<B>, ResourceError>)
        ensures
            match spec_get_buffer(self@, handle.id()) {
                Some(b) => r matches Ok(x) && *x == b,
                None => r matches Err(e) && e == ResourceError::BufferNotFound,
            },
    {
        let id = handle.host_entity;
        if id < self.entities.len() {
            match &self.entities[id] {
                Slot::Buffer(b) => Ok(b),
                _ => Err(ResourceError::BufferNotFound),
            }
        } else {
            Err(ResourceError::BufferNotFound)
        }
    }

    /// The image of a handle; refused when its entity holds no image.
    fn get_image(&self, handle: &ImageHandle) -> (r: Result<&Image<I, V>, ResourceError>)
        ensures
            match spec_get_image(self@, handle.id()) {
                Some(image) => r matches Ok(x) && image_model(*x) == image,
                None => r matches Err(e) && e == ResourceError::NotAnImage,
            },
    {
        let id = handle.host_entity;
        if id < self.entities.len() {
            match &self.entities[id] {
                Slot::Image(image) => Ok(image),
                _ => Err(ResourceError::NotAnImage),
            }
        } else {
            Err(ResourceError::NotAnImage)
        }
    }

    /// Destroys a buffer, as `spec_destroy_buffer` states, and hands it back
    /// so that the device can free it. The entity must not be despawned.
    fn destroy_buffer(&mut self, handle: BufferHandle) -> (r: Result<Buffer<B>, ResourceError>)
        requires
            registry_wf(old(self)@),
            is_live(old(self)@, handle.id() as int),
        ensures
            (final(self)@, r) == spec_destroy_buffer(old(self)@, handle.id()),
            registry_wf(final(self)@),
    {
        proof {
            lemma_destroy_buffer_wf(self@, handle.id());
        }
        assert(self@.entities.len() == self.entities@.len());
        let id = handle.host_entity;
        let holds_buffer = match &self.entities[id] {
            Slot::Buffer(_) => true,
            _ => false,
        };
        assert(self@.entities[id as int] == slot_model(self.entities@[id as int]));
        if !holds_buffer {
            assert(!is_buffer(self@, handle.id() as int));
            assert(spec_destroy_buffer(old(self)@, handle.id()).0 == old(self)@);
            return Err(ResourceError::BufferNotFound);
        }
        let mut slot = Slot::Empty;
        self.entities.set_and_swap(id, &mut slot);
        match slot {
            Slot::Buffer(b) => {
                self.labels.set(id, None);
                self.buffer_descriptors.release(b.descriptor_index);
                assert(self@.entities =~= spec_destroy_buffer(old(self)@, handle.id()).0.entities);
                Ok(b)
            },
            _ => {
                assert(false);
                Err(ResourceError::BufferNotFound)
            },
        }
    }

    /// Destroys an image, as `spec_destroy_image` states, and hands it back
    /// so that the device can free it and its views. The entity must not be
    /// despawned.
    fn destroy_image(&mut self, handle: ImageHandle) -> (r: Result<Image<I, V>, ResourceError>)
        requires
            registry_wf(old(self)@),
            is_live(old(self)@, handle.id() as int),
        ensures
            final(self)@ == spec_destroy_image(old(self)@, handle.id()).0,
            match spec_destroy_image(old(self)@, handle.id()).1 {
                Ok(image) => r matches Ok(x) && image_model(x) == image,
                Err(e) => r == Err::<Image<I, V>, ResourceError>(e),
            },
            registry_wf(final(self)@),
    {
        proof {
            lemma_destroy_image_wf(self@, handle.id());
        }
        assert(self@.entities.len() == self.entities@.len());
        let id = handle.host_entity;
        let holds_image = match &self.entities[id] {
            Slot::Image(_) => true,
            _ => false,
        };
        assert(self@.entities[id as int] == slot_model(self.entities@[id as int]));
        if !holds_image {
            return Err(ResourceError::NotAnImage);
        }
        let mut slot = Slot::Empty;
        self.entities.set_and_swap(id, &mut slot);
        match slot {
            Slot::Image(image) => {
                self.labels.set(id, None);
                let ghost d0 = self.image_descriptors@;
                let ghost entities_now = self.entities@;
                let ghost labels_now = self.labels@;
                let ghost buffers_now = self.buffer_descriptors@;
                assert(image.image_views@.skip(0) =~= image.image_views@);
                let mut k: usize = 0;
                while k < image.image_views.len()
                    invariant
                        k <= image.image_views@.len(),
                        self.entities@ == entities_now,
                        self.labels@ == labels_now,
                        self.buffer_descriptors@ == buffers_now,
                        spec_release_views(self.image_descriptors@, image.image_views@.skip(k as int))
                            == spec_release_views(d0, image.image_views@),
                    decreases image.image_views.len() - k,
                {
                    let ghost before = self.image_descriptors@;
                    assert(image.image_views@.skip(k as int).drop_first() =~= image.image_views@.skip(
                        k + 1,
                    ));
                    self.image_descriptors.release(image.image_views[k].descriptor_index);
                    k = k + 1;
                }
                assert(image.image_views@.skip(k as int).len() == 0);
                assert(self@.entities =~= spec_destroy_image(old(self)@, handle.id()).0.entities);
                Ok(image)
            },
            _ => {
                assert(false);
                Err(ResourceError::NotAnImage)
            },
        }
    }

    /// Whether the entity carries a label.
    fn is_labelled(&self, id: usize) -> (r: bool)
        requires
            registry_wf(self@),
        ensures
            r == ((id as int) < self@.labels.len() && self@.labels[id as int] is Some),
    {
        if id < self.labels.len() {
            self.labels[id].is_some()
        } else {
            false
        }
    }

    /// Moves `label` to entity `id`.
    fn move_label(&mut self, label: u64, id: usize)
        requires
            registry_wf(old(self)@),
            (id as int) < old(self)@.labels.len(),
        ensures
            final(self)@ == (RegistryModel { labels: moved_label(old(self)@.labels, label, id as int), ..old(self)@ }),
    {
        let n = self.labels.len();
        let mut j: usize = 0;
        while j < n
            invariant
                n == self.labels@.len() == old(self)@.labels.len(),
                j <= n,
                self.entities == old(self).entities,
                self.buffer_descriptors == old(self).buffer_descriptors,
                self.image_descriptors == old(self).image_descriptors,
                forall|k: int| 0 <= k < j ==> #[trigger] self.labels@[k] == (if old(self)@.labels[k] == Some(label) {
                    None
                } else {
                    old(self)@.labels[k]
                }),
                forall|k: int| j <= k < n ==> #[trigger] self.labels@[k] == old(self)@.labels[k],
            decreases n - j,
        {
            if self.labels[j] == Some(label) {
                self.labels.set(j, None);
            }
            j = j + 1;
        }
        self.labels.set(id, Some(label));
        assert(self.labels@ =~= moved_label(old(self)@.labels, label, id as int));
    }

    /// Labels a buffer, as `spec_set_buffer_label` states.
    fn set_buffer_label(&mut self, label: u64, handle: &BufferHandle) -> (r: Result<(), ResourceError>)
        requires
            registry_wf(old(self)@),
        ensures
            (final(self)@, r) == spec_set_buffer_label(old(self)@, label, handle.id()),
            registry_wf(final(self)@),
    {
        proof {
            lemma_set_buffer_label_wf(self@, label, handle.id());
        }
        let id = handle.host_entity;
        if self.is_labelled(id) {
            return Err(ResourceError::BufferAlreadySynchronized);
        }
        let mutable = match self.get_buffer(handle) {
            Ok(b) => b.info.shader_mutable,
            Err(e) => return Err(e),
        };
        if !mutable {
            return Err(ResourceError::BufferNotShaderMutable);
        }
        self.move_label(label, id);
        Ok(())
    }

    /// Labels an image, as `spec_set_image_label` states.
    fn set_image_label(&mut self, label: u64, handle: &ImageHandle) -> (r: Result<(), ResourceError>)
        requires
            registry_wf(old(self)@),
        ensures
            (final(self)@, r) == spec_set_image_label(old(self)@, label, handle.id()),
            registry_wf(final(self)@),
    {
        proof {
            lemma_set_image_label_wf(self@, label, handle.id());
        }
        let id = handle.host_entity;
        if self.is_labelled(id) {
            return Err(ResourceError::ImageAlreadySynchronized);
        }
        let mutable = match self.get_image(handle) {
            Ok(image) => image.info.shader_mutable,
            Err(_) => return Err(ResourceError::ImageNotFound),
        };
        if !mutable {
            return Err(ResourceError::ImageNotShaderMutable);
        }
        self.move_label(label, id);
        Ok(())
    }

    /// The entity that carries `label`, as `spec_label_owner` states.
    fn label_owner(&self, label: u64) -> (r: Option<usize>)
        requires
            registry_wf(self@),
        ensures
            r == spec_label_owner(self@, label),
    {
        let mut j: usize = 0;
        while j < self.labels.len()
            invariant
                registry_wf(self@),
                j <= self.labels@.len(),
                forall|k: int| 0 <= k < j ==> self.labels@[k] != Some(label),
            decreases self.labels.len() - j,
        {
            if self.labels[j] == Some(label) {
                proof {
                    assert(self@.labels[j as int] == Some(label));
                    let c = choose|k: usize| (k as int) < self@.labels.len() && self@.labels[k as int] == Some(label);
                    assert(self@.labels[c as int] == Some(label));
                    if c != j {
                        assert(self@.labels[j as int] != self@.labels[c as int]);
                    }
                }
                return Some(j);
            }
            j = j + 1;
        }
        None
    }

    /// The buffer that carries `label`: `None` when no entity carries it or
    /// the entity that does holds no buffer.
    fn labeled_buffer(&self, label: u64) -> (r: Option<&Buffer<B>>)
        requires
            registry_wf(self@),
        ensures
            match spec_label_owner(self@, label) {
                Some(id) => match spec_get_buffer(self@, id) {
                    Some(b) => r matches Some(x) && *x == b,
                    None => r is None,
                },
                None => r is None,
            },
    {
        match self.label_owner(label) {
            Some(id) => match &self.entities[id] {
                Slot::Buffer(b) => Some(b),
                _ => None,
            },
            None => None,
        }
    }

    /// The image that carries `label`, as for buffers.
    fn labeled_image(&self, label: u64) -> (r: Option<&Image<I, V>>)
        requires
            registry_wf(self@),
        ensures
            match spec_label_owner(self@, label) {
                Some(id) => match spec_get_image(self@, id) {
                    Some(image) => r matches Some(x) && image_model(*x) == image,
                    None => r is None,
                },
                None => r is None,
            },
    {
        match self.label_owner(label) {
            Some(id) => match &self.entities[id] {
                Slot::Image(image) => Some(image),
                _ => None,
            },
            None => None,
        }
    }

    /// The buffer of a handle, for host access to its mapped memory as a
    /// value of `size` bytes: refused when the entity holds no buffer, or when
    /// the size is not the buffer's size. Only streamed buffers are mapped.
    fn mapped_buffer(&self, handle: &BufferHandle, size: usize) -> (r: Result<&Buffer<B>, ResourceError>)
        requires
            spec_get_buffer(self@, handle.id()) matches Some(b) ==> b.info.transfer_mode == TransferMode::Stream,
        ensures
            match spec_get_buffer(self@, handle.id()) {
                Some(b) => if b.info.size == size {
                    r matches Ok(x) && *x == b
                } else {
                    r matches Err(e) && e == ResourceError::BufferSizeMismatch
                },
                None => r matches Err(e) && e == ResourceError::BufferNotFound,
            },
    {
        let buffer = match self.get_buffer(handle) {
            Ok(b) => b,
            Err(e) => return Err(e),
        };
        if size != buffer.info.size {
            return Err(ResourceError::BufferSizeMismatch);
        }
        Ok(buffer)
    }

    /// Empties the registry, handing out its buffers and images in entity
    /// order so that the device can free them.
    fn drain(&mut self) -> (r: (Vec<Buffer<B>>, Vec<Image<I, V>>))
        ensures
            r.0@ == old(self)@.entities.filter_map(|s: SlotModel<B, I, V>| buffer_of(s)),
            r.1@.map_values(|image: Image<I, V>| image_model(image)) == old(self)@.entities.filter_map(
                |s: SlotModel<B, I, V>| image_of(s),
            ),
            final(self)@.entities.len() == 0,
            final(self)@.labels.len() == 0,
            final(self)@.buffer_descriptors == old(self)@.buffer_descriptors,
            final(self)@.image_descriptors == old(self)@.image_descriptors,
    {
        let mut entities: Vec<Slot<B, I, V>> = Vec::new();
        std::mem::swap(&mut entities, &mut self.entities);
        self.labels = Vec::new();
        let ghost all = old(self)@.entities;
        let mut buffers: Vec<Buffer<B>> = Vec::new();
        let mut images: Vec<Image<I, V>> = Vec::new();
        let n = entities.len();
        let mut k: usize = 0;
        assert(all.take(0).filter_map(|s: SlotModel<B, I, V>| buffer_of(s)) =~= Seq::<Buffer<B>>::empty());
        assert(all.take(0).filter_map(|s: SlotModel<B, I, V>| image_of(s)) =~= Seq::<ImageModel<I, V>>::empty());
        while k < n
            invariant
                n == entities@.len() == all.len(),
                k <= n,
                forall|j: int| k <= j < n ==> slot_model(#[trigger] entities@[j]) == all[j],
                buffers@ == all.take(k as int).filter_map(|s: SlotModel<B, I, V>| buffer_of(s)),
                images@.map_values(|image: Image<I, V>| image_model(image)) == all.take(
                    k as int,
                ).filter_map(|s: SlotModel<B, I, V>| image_of(s)),
                self@.entities.len() == 0,
                self@.labels.len() == 0,
                self@.buffer_descriptors == old(self)@.buffer_descriptors,
                self@.image_descriptors == old(self)@.image_descriptors,
            decreases n - k,
        {
            proof {
                all.lemma_filter_map_take_succ(|s: SlotModel<B, I, V>| buffer_of(s), k as int);
                all.lemma_filter_map_take_succ(|s: SlotModel<B, I, V>| image_of(s), k as int);
            }
            let mut slot = Slot::Empty;
            entities.set_and_swap(k, &mut slot);
            assert(slot_model(slot) == all[k as int]);
            let ghost before = images@;
            match slot {
                Slot::Buffer(b) => {
                    assert(buffer_of(all[k as int]) == Some(b));
                    assert(image_of(all[k as int]) is None);
                    buffers.push(b);
                    assert(images@.map_values(|image: Image<I, V>| image_model(image)) =~= before.map_values(|image: Image<I, V>| image_model(image)));
                },
                Slot::Image(image) => {
                    assert(buffer_of(all[k as int]) is None);
                    assert(image_of(all[k as int]) == Some(image_model(image)));
                    images.push(image);
                    assert(images@.map_values(|image: Image<I, V>| image_model(image)) =~= before.map_values(|image: Image<I, V>| image_model(image)).push(image_model(image)));
                },
                Slot::Empty => {
                    assert(buffer_of(all[k as int]) is None);
                    assert(image_of(all[k as int]) is None);
                },
            }
            k = k + 1;
        }
        assert(all.take(n as int) =~= all);
        (buffers, images)
    }
}

impl<B, I, V> ResourceRegistry<B, I, V> {
    /// An empty registry.
    pub fn new() -> (r: Self)
        ensures
            registry_wf(r@),
            r@.entities.len() == 0,
            r@.buffer_descriptors == (DescriptorCacheModel { next: 0, free: Seq::empty() }),
            r@.image_descriptors == (DescriptorCacheModel { next: 0, free: Seq::empty() }),
    {
        ResourceRegistry { state: RegistryState::new() }
    }

    /// Whether a buffer can be created without running out of buffer slots
    /// or entity ids.
    pub fn can_create_buffer(&self) -> (r: bool)
        ensures
            r == (can_allocate(self@.buffer_descriptors) && self@.entities.len() < usize::MAX),
    {
        proof {
            use_type_invariant(self);
        }
        self.state.can_create_buffer()
    }

    /// Whether an image can be created without running out of image slots or
    /// entity ids.
    pub fn can_create_image(&self) -> (r: bool)
        ensures
            r == (can_allocate(self@.image_descriptors) && self@.entities.len() < usize::MAX),
    {
        proof {
            use_type_invariant(self);
        }
        self.state.can_create_image()
    }

    /// Whether the entity is in the registry and not despawned.
    pub fn is_live(&self, id: usize) -> (r: bool)
        ensures
            r == is_live(self@, id as int),
    {
        proof {
            use_type_invariant(self);
        }
        self.state.is_live(id)
    }

    /// Registers a new buffer, as `spec_create_buffer` states.
    pub fn create_buffer(&mut self, info: BufferInfo, payload: B) -> (h: BufferHandle)
        requires
            can_allocate(old(self)@.buffer_descriptors),
            old(self)@.entities.len() < usize::MAX,
        ensures
            (final(self)@, h.id()) == spec_create_buffer(old(self)@, info, payload),
            registry_wf(final(self)@),
    {
        proof {
            use_type_invariant(&*self);
        }
        let mut state = RegistryState::new();
        std::mem::swap(&mut state, &mut self.state);
        let r = state.create_buffer(info, payload);
        self.state = state;
        r
    }

    /// Registers a new image with one view, as `spec_create_image` states.
    pub fn create_image(&mut self, info: ImageInfo, payload: I, view: V) -> (h: ImageHandle)
        requires
            can_allocate(old(self)@.image_descriptors),
            old(self)@.entities.len() < usize::MAX,
        ensures
            (final(self)@, h.id()) == spec_create_image(old(self)@, info, payload, view),
            registry_wf(final(self)@),
    {
        proof {
            use_type_invariant(&*self);
        }
        let mut state = RegistryState::new();
        std::mem::swap(&mut state, &mut self.state);
        let r = state.create_image(info, payload, view);
        self.state = state;
        r
    }

    /// The buffer of a handle; refused when its entity holds no buffer.
    pub fn get_buffer(&self, handle: &BufferHandle) -> (r: Result<&Buffer<B>, ResourceError>)
        ensures
            match spec_get_buffer(self@, handle.id()) {
                Some(b) => r matches Ok(x) && *x == b,
                None => r matches Err(e) && e == ResourceError::BufferNotFound,
            },
    {
        proof {
            use_type_invariant(self);
        }
        self.state.get_buffer(handle)
    }

    /// The image of a handle; refused when its entity holds no image.
    pub fn get_image(&self, handle: &ImageHandle) -> (r: Result<&Image<I, V>, ResourceError>)
        ensures
            match spec_get_image(self@, handle.id()) {
                Some(image) => r matches Ok(x) && image_model(*x) == image,
                None => r matches Err(e) && e == ResourceError::NotAnImage,
            },
    {
        proof {
            use_type_invariant(self);
        }
        self.state.get_image(handle)
    }

    /// Destroys a buffer, as `spec_destroy_buffer` states, and hands it back
    /// so that the device can free it. The entity must not be despawned.
    pub fn destroy_buffer(&mut self, handle: BufferHandle) -> (r: Result<Buffer<B>, ResourceError>)
        requires
            is_live(old(self)@, handle.id() as int),
        ensures
            (final(self)@, r) == spec_destroy_buffer(old(self)@, handle.id()),
            registry_wf(final(self)@),
    {
        proof {
            use_type_invariant(&*self);
        }
        let mut state = RegistryState::new();
        std::mem::swap(&mut state, &mut self.state);
        let r = state.destroy_buffer(handle);
        self.state = state;
        r
    }

    /// Destroys an image, as `spec_destroy_image` states, and hands it back
    /// so that the device can free it and its views. The entity must not be
    /// despawned.
    pub fn destroy_image(&mut self, handle: ImageHandle) -> (r: Result<Image<I, V>, ResourceError>)
        requires
            is_live(old(self)@, handle.id() as int),
        ensures
            final(self)@ == spec_destroy_image(old(self)@, handle.id()).0,
            match spec_destroy_image(old(self)@, handle.id()).1 {
                Ok(image) => r matches Ok(x) && image_model(x) == image,
                Err(e) => r == Err::<Image<I, V>, ResourceError>(e),
            },
            registry_wf(final(self)@),
    {
        proof {
            use_type_invariant(&*self);
        }
        let mut state = RegistryState::new();
        std::mem::swap(&mut state, &mut self.state);
        let r = state.destroy_image(handle);
        self.state = state;
        r
    }

    /// Labels a buffer, as `spec_set_buffer_label` states.
    pub fn set_buffer_label(&mut self, label: u64, handle: &BufferHandle) -> (r: Result<(), ResourceError>)
        ensures
            (final(self)@, r) == spec_set_buffer_label(old(self)@, label, handle.id()),
            registry_wf(final(self)@),
    {
        proof {
            use_type_invariant(&*self);
        }
        let mut state = RegistryState::new();
        std::mem::swap(&mut state, &mut self.state);
        let r = state.set_buffer_label(label, handle);
        self.state = state;
        r
    }

    /// Labels an image, as `spec_set_image_label` states.
    pub fn set_image_label(&mut self, label: u64, handle: &ImageHandle) -> (r: Result<(), ResourceError>)
        ensures
            (final(self)@, r) == spec_set_image_label(old(self)@, label, handle.id()),
            registry_wf(final(self)@),
    {
        proof {
            use_type_invariant(&*self);
        }
        let mut state = RegistryState::new();
        std::mem::swap(&mut state, &mut self.state);
        let r = state.set_image_label(label, handle);
        self.state = state;
        r
    }

    /// The entity that carries `label`, as `spec_label_owner` states.
    pub fn label_owner(&self, label: u64) -> (r: Option<usize>)
        ensures
            r == spec_label_owner(self@, label),
    {
        proof {
            use_type_invariant(self);
        }
        self.state.label_owner(label)
    }

    /// The buffer that carries `label`: `None` when no entity carries it or
    /// the entity that does holds no buffer.
    pub fn labeled_buffer(&self, label: u64) -> (r: Option<&Buffer<B>>)
        ensures
            match spec_label_owner(self@, label) {
                Some(id) => match spec_get_buffer(self@, id) {
                    Some(b) => r matches Some(x) && *x == b,
                    None => r is None,
                },
                None => r is None,
            },
    {
        proof {
            use_type_invariant(self);
        }
        self.state.labeled_buffer(label)
    }

    /// The image that carries `label`, as for buffers.
    pub fn labeled_image(&self, label: u64) -> (r: Option<&Image<I, V>>)
        ensures
            match spec_label_owner(self@, label) {
                Some(id) => match spec_get_image(self@, id) {
                    Some(image) => r matches Some(x) && image_model(*x) == image,
                    None => r is None,
                },
                None => r is None,
            },
    {
        proof {
            use_type_invariant(self);
        }
        self.state.labeled_image(label)
    }

    /// The buffer of a handle, for host access to its mapped memory as a
    /// value of `size` bytes: refused when the entity holds no buffer, or when
    /// the size is not the buffer's size. Only streamed buffers are mapped.
    pub fn mapped_buffer(&self, handle: &BufferHandle, size: usize) -> (r: Result<&Buffer<B>, ResourceError>)
        requires
            spec_get_buffer(self@, handle.id()) matches Some(b) ==> b.info.transfer_mode == TransferMode::Stream,
        ensures
            match spec_get_buffer(self@, handle.id()) {
                Some(b) => if b.info.size == size {
                    r matches Ok(x) && *x == b
                } else {
                    r matches Err(e) && e == ResourceError::BufferSizeMismatch
                },
                None => r matches Err(e) && e == ResourceError::BufferNotFound,
            },
    {
        proof {
            use_type_invariant(self);
        }
        self.state.mapped_buffer(handle, size)
    }

    /// Empties the registry, handing out its buffers and images in entity
    /// order so that the device can free them.
    pub fn drain(&mut self) -> (r: (Vec<Buffer<B>>, Vec<Image<I, V>>))
        ensures
            r.0@ == old(self)@.entities.filter_map(|s: SlotModel<B, I, V>| buffer_of(s)),
            r.1@.map_values(|image: Image<I, V>| image_model(image)) == old(self)@.entities.filter_map(
                |s: SlotModel<B, I, V>| image_of(s),
            ),
            final(self)@.entities.len() == 0,
            final(self)@.labels.len() == 0,
            final(self)@.buffer_descriptors == old(self)@.buffer_descriptors,
            final(self)@.image_descriptors == old(self)@.image_descriptors,
    {
        proof {
            use_type_invariant(&*self);
        }
        let mut state = RegistryState::new();
        std::mem::swap(&mut state, &mut self.state);
        let r = state.drain();
        self.state = state;
        r
    }
}

/// The buffer that an entity holds, if any.
pub open spec fn buffer_of<B, I, V>(s: SlotModel<B, I, V>) -> Option<Buffer<B>> {
    match s {
        SlotModel::Buffer(b) => Some(b),
        _ => None,
    }
}

/// The image that an entity holds, if any.
pub open spec fn image_of<B, I, V>(s: SlotModel<B, I, V>) -> Option<ImageModel<I, V>> {
    match s {
        SlotModel::Image(image) => Some(image),
        _ => None,
    }
}

} // verus!
verus! {

// ---------------------------------------------------------------------------
// Laws

/// A created buffer is found under its handle, with its info, the slot that
/// the buffer allocator handed out and its device payload; every other entity
/// reads as before, and no label moves.
pub proof fn law_create_buffer_then_get<B, I, V>(m: RegistryModel<B, I, V>, info: BufferInfo, payload: B)
    requires
        registry_wf(m),
        can_allocate(m.buffer_descriptors),
        m.entities.len() < usize::MAX,
    ensures
        ({
            let (m2, id) = spec_create_buffer(m, info, payload);
            &&& spec_get_buffer(m2, id) == Some(
                Buffer { info, descriptor_index: spec_allocate(m.buffer_descriptors).1, payload },
            )
            &&& forall|other: usize| other != id ==> spec_get_buffer(m2, other) == spec_get_buffer(m, other)
            &&& forall|other: usize| other != id ==> spec_get_image(m2, other) == spec_get_image(m, other)
            &&& forall|label: u64| spec_label_owner(m2, label) == spec_label_owner(m, label)
        }),
{
    let (m2, id) = spec_create_buffer(m, info, payload);
    assert forall|label: u64| spec_label_owner(m2, label) == spec_label_owner(m, label) by {
        if exists|j: usize| (j as int) < m.labels.len() && m.labels[j as int] == Some(label) {
            let j = choose|j: usize| (j as int) < m.labels.len() && m.labels[j as int] == Some(label);
            assert(m2.labels[j as int] == Some(label));
        }
        if exists|j: usize| (j as int) < m2.labels.len() && m2.labels[j as int] == Some(label) {
            let j = choose|j: usize| (j as int) < m2.labels.len() && m2.labels[j as int] == Some(label);
            assert(m.labels[j as int] == Some(label));
        }
    }
}

/// A destroyed buffer is no longer found, no label names its entity, and
/// every other entity reads as before.
pub proof fn law_destroy_buffer_then_get<B, I, V>(m: RegistryModel<B, I, V>, id: usize)
    requires
        registry_wf(m),
        is_buffer(m, id as int),
    ensures
        ({
            let m2 = spec_destroy_buffer(m, id).0;
            &&& spec_get_buffer(m2, id) is None
            &&& forall|label: u64| spec_label_owner(m2, label) != Some(id)
            &&& forall|other: usize| other != id ==> spec_get_buffer(m2, other) == spec_get_buffer(m, other)
            &&& forall|other: usize| other != id ==> spec_get_image(m2, other) == spec_get_image(m, other)
        }),
{
    let m2 = spec_destroy_buffer(m, id).0;
    assert(m2.labels[id as int] is None);
    assert forall|label: u64| spec_label_owner(m2, label) != Some(id) by {
        if exists|j: usize| (j as int) < m2.labels.len() && m2.labels[j as int] == Some(label) {
            let j = choose|j: usize| (j as int) < m2.labels.len() && m2.labels[j as int] == Some(label);
            assert(j != id);
        }
    }
}

/// The buffer slot of a destroyed buffer is the slot that the next created
/// buffer gets.
pub proof fn law_destroy_then_create_reuses_slot<B, I, V>(
    m: RegistryModel<B, I, V>,
    id: usize,
    info: BufferInfo,
    payload: B,
)
    requires
        registry_wf(m),
        is_buffer(m, id as int),
        m.entities.len() < usize::MAX,
    ensures
        ({
            let m2 = spec_destroy_buffer(m, id).0;
            let (m3, new_id) = spec_create_buffer(m2, info, payload);
            spec_get_buffer(m3, new_id)->0.descriptor_index == buffer_descriptor(m, id as int)
        }),
{
    let m2 = spec_destroy_buffer(m, id).0;
    assert(m2.buffer_descriptors.free.last() == buffer_descriptor(m, id as int));
}

/// Two live buffers never share a slot of the buffer binding, nor two live
/// images a slot of the image bindings.
pub proof fn law_live_slots_distinct<B, I, V>(m: RegistryModel<B, I, V>, i: int, j: int)
    requires
        registry_wf(m),
        i != j,
    ensures
        is_buffer(m, i) && is_buffer(m, j) ==> buffer_descriptor(m, i) != buffer_descriptor(m, j),
        is_image(m, i) && is_image(m, j) ==> image_descriptor(m, i) != image_descriptor(m, j),
{
}

/// After a buffer is labelled, the label names it, and every other label
/// still names what it named.
pub proof fn law_set_buffer_label_then_owner<B, I, V>(m: RegistryModel<B, I, V>, label: u64, id: usize)
    requires
        registry_wf(m),
        spec_set_buffer_label(m, label, id).1 is Ok,
    ensures
        spec_label_owner(spec_set_buffer_label(m, label, id).0, label) == Some(id),
        forall|other: u64| other != label ==> spec_label_owner(spec_set_buffer_label(m, label, id).0, other)
            == spec_label_owner(m, other),
{
    let m2 = spec_set_buffer_label(m, label, id).0;
    lemma_set_buffer_label_wf(m, label, id);
    lemma_moved_label_owner(m, m2, label, id);
}

/// After an image is labelled, the label names it, and every other label
/// still names what it named.
pub proof fn law_set_image_label_then_owner<B, I, V>(m: RegistryModel<B, I, V>, label: u64, id: usize)
    requires
        registry_wf(m),
        spec_set_image_label(m, label, id).1 is Ok,
    ensures
        spec_label_owner(spec_set_image_label(m, label, id).0, label) == Some(id),
        forall|other: u64| other != label ==> spec_label_owner(spec_set_image_label(m, label, id).0, other)
            == spec_label_owner(m, other),
{
    let m2 = spec_set_image_label(m, label, id).0;
    lemma_set_image_label_wf(m, label, id);
    lemma_moved_label_owner(m, m2, label, id);
}

proof fn lemma_moved_label_owner<B, I, V>(
    m: RegistryModel<B, I, V>,
    m2: RegistryModel<B, I, V>,
    label: u64,
    id: usize,
)
    requires
        registry_wf(m),
        registry_wf(m2),
        (id as int) < m.labels.len(),
        m.labels[id as int] is None,
        m2.labels == moved_label(m.labels, label, id as int),
    ensures
        spec_label_owner(m2, label) == Some(id),
        forall|other: u64| other != label ==> spec_label_owner(m2, other) == spec_label_owner(m, other),
{
    assert(m2.labels[id as int] == Some(label));
    let c = choose|j: usize| (j as int) < m2.labels.len() && m2.labels[j as int] == Some(label);
    if c != id {
        assert(m2.labels[c as int] != m2.labels[id as int]);
    }
    assert forall|other: u64| other != label implies spec_label_owner(m2, other) == spec_label_owner(m, other) by {
        if exists|j: usize| (j as int) < m.labels.len() && m.labels[j as int] == Some(other) {
            let j = choose|j: usize| (j as int) < m.labels.len() && m.labels[j as int] == Some(other);
            assert(m2.labels[j as int] == Some(other));
            let j2 = choose|k: usize| (k as int) < m2.labels.len() && m2.labels[k as int] == Some(other);
            if j2 != j {
                assert(m2.labels[j2 as int] != m2.labels[j as int]);
            }
        }
        if exists|j: usize| (j as int) < m2.labels.len() && m2.labels[j as int] == Some(other) {
            let j = choose|j: usize| (j as int) < m2.labels.len() && m2.labels[j as int] == Some(other);
            assert(m.labels[j as int] == Some(other));
        }
    }
}

/// A refused labelling changes nothing.
pub proof fn law_refused_label_changes_nothing<B, I, V>(m: RegistryModel<B, I, V>, label: u64, id: usize)
    ensures
        spec_set_buffer_label(m, label, id).1 is Err ==> spec_set_buffer_label(m, label, id).0 == m,
        spec_set_image_label(m, label, id).1 is Err ==> spec_set_image_label(m, label, id).0 == m,
{
}

/// A created image is found under its handle, with its info, its payload
/// and one view on the image slot that the image allocator handed out;
/// every other entity reads as before.
pub proof fn law_create_image_then_get<B, I, V>(m: RegistryModel<B, I, V>, info: ImageInfo, payload: I, view: V)
    requires
        registry_wf(m),
        can_allocate(m.image_descriptors),
        m.entities.len() < usize::MAX,
    ensures
        ({
            let (m2, id) = spec_create_image(m, info, payload, view);
            &&& spec_get_image(m2, id) == Some(
                ImageModel {
                    info,
                    payload,
                    views: seq![ImageView { descriptor_index: spec_allocate(m.image_descriptors).1, inner: view }],
                },
            )
            &&& forall|other: usize| other != id ==> spec_get_buffer(m2, other) == spec_get_buffer(m, other)
            &&& forall|other: usize| other != id ==> spec_get_image(m2, other) == spec_get_image(m, other)
        }),
{
}

/// A destroyed image is no longer found, no label names its entity, and
/// every other entity reads as before.
pub proof fn law_destroy_image_then_get<B, I, V>(m: RegistryModel<B, I, V>, id: usize)
    requires
        registry_wf(m),
        is_image(m, id as int),
    ensures
        ({
            let m2 = spec_destroy_image(m, id).0;
            &&& spec_get_image(m2, id) is None
            &&& forall|label: u64| spec_label_owner(m2, label) != Some(id)
            &&& forall|other: usize| other != id ==> spec_get_buffer(m2, other) == spec_get_buffer(m, other)
            &&& forall|other: usize| other != id ==> spec_get_image(m2, other) == spec_get_image(m, other)
        }),
{
    let m2 = spec_destroy_image(m, id).0;
    assert(m2.labels[id as int] is None);
    assert forall|label: u64| spec_label_owner(m2, label) != Some(id) by {
        if exists|j: usize| (j as int) < m2.labels.len() && m2.labels[j as int] == Some(label) {
            let j = choose|j: usize| (j as int) < m2.labels.len() && m2.labels[j as int] == Some(label);
            assert(j != id);
        }
    }
}

} // verus!
