use vstd::prelude::*;
use crate::selection::{is_last_max, last_max_index};
use crate::version::{api_version_1_3, spec_api_version_1_3};

verus! {

/// Raw values of `VkPhysicalDeviceType`.
pub const DEVICE_TYPE_OTHER: i32 = 0;
pub const DEVICE_TYPE_INTEGRATED_GPU: i32 = 1;
pub const DEVICE_TYPE_DISCRETE_GPU: i32 = 2;
pub const DEVICE_TYPE_VIRTUAL_GPU: i32 = 3;
pub const DEVICE_TYPE_CPU: i32 = 4;

/// Raw bits of `VkQueueFlags`.
pub const QUEUE_GRAPHICS_BIT: u32 = 1;
pub const QUEUE_COMPUTE_BIT: u32 = 2;
pub const QUEUE_TRANSFER_BIT: u32 = 4;

/// Errors of device selection.
#[derive(Clone, Copy, Debug, PartialEq, Eq, Structural)]
pub enum DeviceError {
    /// No physical device was found at all.
    NoValidDevice,
    /// A device index past the end of the device list.
    InvalidDeviceIndex,
}

impl DeviceError {
    pub fn message(&self) -> (r: &'static str)
        ensures
            *self == DeviceError::NoValidDevice ==> r@ == "No valid device found."@,
            *self == DeviceError::InvalidDeviceIndex ==> r@ == "'index' should be a valid device index."@,
    {
        match self {
            DeviceError::NoValidDevice => "No valid device found.",
            DeviceError::InvalidDeviceIndex => "'index' should be a valid device index.",
        }
    }
}

/// The queue families that the device's queues come from, and how many
/// queues the dedicated compute and transfer families offer.
#[derive(Clone, Copy, Debug, PartialEq, Eq, Structural)]
pub struct QueueProperties {
    pub compute_family: u32,
    pub graphics_family: u32,
    pub transfer_family: u32,
    pub compute_count: u32,
    pub transfer_count: u32,
}

impl Default for QueueProperties {
    fn default() -> (r: Self)
        ensures
            r == (QueueProperties {
                compute_family: 0,
                graphics_family: 0,
                transfer_family: 0,
                compute_count: 0,
                transfer_count: 0,
            }),
    {
        QueueProperties {
            compute_family: 0,
            graphics_family: 0,
            transfer_family: 0,
            compute_count: 0,
            transfer_count: 0,
        }
    }
}

/// One entry of `vkGetPhysicalDeviceQueueFamilyProperties`: the raw queue
/// flags and the number of queues.
#[derive(Clone, Copy, Debug, PartialEq, Eq, Structural)]
pub struct QueueFamily {
    pub flags: u32,
    pub queue_count: u32,
}

/// `flags` holds every bit of `bits`.
pub open spec fn has_bits(flags: u32, bits: u32) -> bool {
    flags & bits == bits
}

/// `ash::vk::QueueFlags::contains`: whether every bit of `other` is set in
/// `flags` (`flags & other == other`).
#[verifier::external_body]
fn queue_flags_contains(flags: u32, other: u32) -> (r: bool)
    ensures
        r == has_bits(flags, other),
{
    ash::vk::QueueFlags::from_raw(flags).contains(ash::vk::QueueFlags::from_raw(other))
}

/// What one queue family, at position `index`, does to the queue properties
/// gathered from the families before it: a family with graphics, compute and
/// transfer becomes the graphics family; the first family with compute and
/// transfer but no graphics becomes the compute family (and its queue count
/// the compute count), unless one with a non-zero count was already taken;
/// likewise the first transfer-only family for transfer.
pub open spec fn queue_family_step(q: QueueProperties, index: u32, family: QueueFamily) -> QueueProperties {
    let g = has_bits(family.flags, QUEUE_GRAPHICS_BIT);
    let c = has_bits(family.flags, QUEUE_COMPUTE_BIT);
    let t = has_bits(family.flags, QUEUE_TRANSFER_BIT);
    if g && c && t {
        QueueProperties { graphics_family: index, ..q }
    } else if !g && c && t {
        if q.compute_count == 0 {
            QueueProperties { compute_family: index, compute_count: family.queue_count, ..q }
        } else {
            q
        }
    } else if !g && !c && t {
        if q.transfer_count == 0 {
            QueueProperties { transfer_family: index, transfer_count: family.queue_count, ..q }
        } else {
            q
        }
    } else {
        q
    }
}

/// The queue properties gathered from a device's queue families, in order,
/// starting from all zeros.
pub open spec fn queue_properties_of(families: Seq<QueueFamily>) -> QueueProperties
    decreases families.len(),
{
    if families.len() == 0 {
        QueueProperties {
            compute_family: 0,
            graphics_family: 0,
            transfer_family: 0,
            compute_count: 0,
            transfer_count: 0,
        }
    } else {
        queue_family_step(
            queue_properties_of(families.drop_last()),
            (families.len() - 1) as u32,
            families.last(),
        )
    }
}

/// Picks the graphics, compute and transfer queue families of a device from
/// its queue family list.
pub fn classify_queue_families(families: &Vec<QueueFamily>) -> (r: QueueProperties)
    requires
        families@.len() <= u32::MAX,
    ensures
        r == queue_properties_of(families@),
{
    let mut q = QueueProperties::default();
    let mut i: usize = 0;
    while i < families.len()
        invariant
            i <= families@.len() <= u32::MAX,
            q == queue_properties_of(families@.take(i as int)),
        decreases families.len() - i,
    {
        let family = families[i];
        let graphics = queue_flags_contains(family.flags, QUEUE_GRAPHICS_BIT);
        let compute = queue_flags_contains(family.flags, QUEUE_COMPUTE_BIT);
        let transfer = queue_flags_contains(family.flags, QUEUE_TRANSFER_BIT);
        let index = i as u32;
        if graphics && compute && transfer {
            q.graphics_family = index;
        } else if !graphics && compute && transfer {
            if q.compute_count == 0 {
                q.compute_family = index;
                q.compute_count = family.queue_count;
            }
        } else if !graphics && !compute && transfer {
            if q.transfer_count == 0 {
                q.transfer_family = index;
                q.transfer_count = family.queue_count;
            }
        }
        assert(families@.take(i + 1).drop_last() =~= families@.take(i as int));
        i = i + 1;
    }
    assert(families@.take(i as int) =~= families@);
    q
}


/// What device selection reads of one physical device.
#[derive(Clone, Copy, Debug, PartialEq, Eq, Structural)]
pub struct DeviceCandidate {
    /// The packed Vulkan API version that the device supports.
    pub api_version: u32,
    /// The raw `VkPhysicalDeviceType`.
    pub device_type: i32,
    /// Whether the device's graphics family can present to the primary surface.
    pub supports_presentation: bool,
}

/// The preference for a device: 0 for a device that cannot be used (it lacks
/// API 1.3, or presentation where presentation is required), else 1000 for a
/// discrete GPU, 100 for an integrated one, 10 for a virtual one and 1 for
/// any other kind.
pub open spec fn spec_device_score(d: DeviceCandidate, require_presentation: bool) -> i32 {
    if (!require_presentation || d.supports_presentation) && d.api_version >= spec_api_version_1_3() {
        if d.device_type == DEVICE_TYPE_DISCRETE_GPU {
            1000
        } else if d.device_type == DEVICE_TYPE_INTEGRATED_GPU {
            100
        } else if d.device_type == DEVICE_TYPE_VIRTUAL_GPU {
            10
        } else {
            1
        }
    } else {
        0
    }
}

/// Scores one device, as `spec_device_score` states.
pub fn device_score(d: &DeviceCandidate, require_presentation: bool) -> (r: i32)
    ensures
        r == spec_device_score(*d, require_presentation),
{
    let check = (!require_presentation || d.supports_presentation) && d.api_version
        >= api_version_1_3();
    if check {
        if d.device_type == DEVICE_TYPE_DISCRETE_GPU {
            1000
        } else if d.device_type == DEVICE_TYPE_INTEGRATED_GPU {
            100
        } else if d.device_type == DEVICE_TYPE_VIRTUAL_GPU {
            10
        } else {
            1
        }
    } else {
        0
    }
}

/// The scores of all devices, in order.
pub open spec fn device_scores(ds: Seq<DeviceCandidate>, require_presentation: bool) -> Seq<i32> {
    ds.map_values(|d: DeviceCandidate| spec_device_score(d, require_presentation))
}

/// Picks the primary device: the one with the highest score, the last of
/// those on ties, whatever its score; an error only when there is no device.
pub fn select_primary_device(devices: &Vec<DeviceCandidate>, require_presentation: bool) -> (r:
    Result<u32, DeviceError>)
    requires
        devices@.len() <= u32::MAX,
    ensures
        devices@.len() == 0 <==> r == Err::<u32, DeviceError>(DeviceError::NoValidDevice),
        devices@.len() > 0 ==> (r matches Ok(i) && is_last_max(device_scores(devices@, require_presentation), i as int)),
{
    let mut scores: Vec<i32> = Vec::new();
    let mut i: usize = 0;
    while i < devices.len()
        invariant
            i <= devices@.len(),
            scores@ =~= device_scores(devices@.take(i as int), require_presentation),
        decreases devices.len() - i,
    {
        scores.push(device_score(&devices[i], require_presentation));
        i = i + 1;
    }
    assert(devices@.take(i as int) =~= devices@);
    match last_max_index(&scores) {
        Some(best) => Ok(best as u32),
        None => Err(DeviceError::NoValidDevice),
    }
}

/// Checks a device index against the number of devices, comparing as the
/// context does, with the count taken as `u32`.
pub fn validate_device_index(index: u32, device_count: usize) -> (r: Result<u32, DeviceError>)
    ensures
        index < device_count as u32 ==> r == Ok::<u32, DeviceError>(index),
        !(index < device_count as u32) ==> r == Err::<u32, DeviceError>(DeviceError::InvalidDeviceIndex),
{
    if index < device_count as u32 {
        Ok(index)
    } else {
        Err(DeviceError::InvalidDeviceIndex)
    }
}

/// The per-set descriptor limits of a device, as reported by Vulkan.
#[derive(Clone, Copy, Debug, PartialEq, Eq, Structural)]
pub struct DescriptorLimits {
    pub storage_buffers: u32,
    pub storage_images: u32,
    pub sampled_images: u32,
    pub samplers: u32,
    pub acceleration_structures: u32,
}

/// The largest number of descriptors of one kind that the bindless set holds.
pub const MAX_DESCRIPTORS_PER_BINDING: u32 = 1000;

pub open spec fn min_u32(a: u32, b: u32) -> u32 {
    if a <= b { a } else { b }
}

/// The descriptor counts of the bindless set: each device limit, capped at
/// `MAX_DESCRIPTORS_PER_BINDING`.
pub fn descriptor_counts(limits: &DescriptorLimits) -> (r: DescriptorLimits)
    ensures
        r.storage_buffers == min_u32(limits.storage_buffers, MAX_DESCRIPTORS_PER_BINDING),
        r.storage_images == min_u32(limits.storage_images, MAX_DESCRIPTORS_PER_BINDING),
        r.sampled_images == min_u32(limits.sampled_images, MAX_DESCRIPTORS_PER_BINDING),
        r.samplers == min_u32(limits.samplers, MAX_DESCRIPTORS_PER_BINDING),
        r.acceleration_structures == min_u32(limits.acceleration_structures, MAX_DESCRIPTORS_PER_BINDING),
{
    DescriptorLimits {
        storage_buffers: limits.storage_buffers.min(MAX_DESCRIPTORS_PER_BINDING),
        storage_images: limits.storage_images.min(MAX_DESCRIPTORS_PER_BINDING),
        sampled_images: limits.sampled_images.min(MAX_DESCRIPTORS_PER_BINDING),
        samplers: limits.samplers.min(MAX_DESCRIPTORS_PER_BINDING),
        acceleration_structures: limits.acceleration_structures.min(MAX_DESCRIPTORS_PER_BINDING),
    }
}

/// The queues that a logical device is created with: one graphics queue,
/// and every queue of the compute and of the transfer family, as
/// `(family, queue count)`.
pub fn queue_create_plan(q: &QueueProperties) -> (r: [(u32, u32); 3])
    ensures
        r@ == seq![(q.graphics_family, 1u32), (q.compute_family, q.compute_count), (q.transfer_family, q.transfer_count)],
{
    [(q.graphics_family, 1), (q.compute_family, q.compute_count), (q.transfer_family, q.transfer_count)]
}

/// The device extensions that the context relies on.
#[derive(Clone, Copy, Debug, PartialEq, Eq, Structural)]
pub enum DeviceExtension {
    DescriptorIndexing,
    ShaderImageAtomicInt64,
    Robustness2,
    PushDescriptor,
    DeferredHostOperations,
    AccelerationStructure,
    RayTracingPipeline,
    MeshShader,
    Maintenance5,
    Swapchain,
}

/// The extensions that every device is created with, in order.
pub open spec fn base_device_extensions() -> Seq<DeviceExtension> {
    seq![
        DeviceExtension::DescriptorIndexing,
        DeviceExtension::ShaderImageAtomicInt64,
        DeviceExtension::Robustness2,
        DeviceExtension::PushDescriptor,
        DeviceExtension::DeferredHostOperations,
        DeviceExtension::AccelerationStructure,
        DeviceExtension::RayTracingPipeline,
        DeviceExtension::MeshShader,
        DeviceExtension::Maintenance5,
    ]
}

/// The extensions of a device: the base ones, and the swapchain extension
/// when the device presents to a display.
pub fn device_extensions(display_support: bool) -> (r: Vec<DeviceExtension>)
    ensures
        display_support ==> r@ == base_device_extensions().push(DeviceExtension::Swapchain),
        !display_support ==> r@ == base_device_extensions(),
{
    let mut r = vec![
        DeviceExtension::DescriptorIndexing,
        DeviceExtension::ShaderImageAtomicInt64,
        DeviceExtension::Robustness2,
        DeviceExtension::PushDescriptor,
        DeviceExtension::DeferredHostOperations,
        DeviceExtension::AccelerationStructure,
        DeviceExtension::RayTracingPipeline,
        DeviceExtension::MeshShader,
        DeviceExtension::Maintenance5,
    ];
    assert(r@ =~= base_device_extensions());
    if display_support {
        r.push(DeviceExtension::Swapchain);
    }
    r
}


/// Vulkan 1.3, packed: `(1 << 22) | (3 << 12)`.
proof fn lemma_api_1_3_value()
    ensures
        spec_api_version_1_3() == 0x0040_3000,
{
    assert(((0u32 << 29u32) | (1u32 << 22u32) | (3u32 << 12u32) | 0u32) as u32 == 0x0040_3000u32) by (bit_vector);
}

/// A device that lacks Vulkan 1.3 (packed `0x0040_3000`), or presentation
/// when presentation is required, is never preferred: it scores 0, whether
/// presentation is required or not. A device that has both scores at least
/// 1; among those, a discrete GPU outscores every other kind, and an
/// integrated GPU outscores a virtual one and any other kind.
pub proof fn law_device_score(d: DeviceCandidate, e: DeviceCandidate, require_presentation: bool)
    ensures
        spec_device_score(d, require_presentation) >= 0,
        spec_device_score(d, require_presentation) > 0 ==> d.api_version >= 0x0040_3000,
        spec_device_score(d, require_presentation) > 0 && require_presentation ==> d.supports_presentation,
        d.api_version >= 0x0040_3000 && (!require_presentation || d.supports_presentation) ==> spec_device_score(
            d,
            require_presentation,
        ) >= 1,
        d.api_version >= 0x0040_3000 && (!require_presentation || d.supports_presentation) && d.device_type
            == DEVICE_TYPE_DISCRETE_GPU && e.device_type != DEVICE_TYPE_DISCRETE_GPU ==> spec_device_score(
            d,
            require_presentation,
        ) > spec_device_score(e, require_presentation),
        d.api_version >= 0x0040_3000 && (!require_presentation || d.supports_presentation) && d.device_type
            == DEVICE_TYPE_INTEGRATED_GPU && e.device_type != DEVICE_TYPE_DISCRETE_GPU && e.device_type
            != DEVICE_TYPE_INTEGRATED_GPU ==> spec_device_score(d, require_presentation) > spec_device_score(
            e,
            require_presentation,
        ),
{
    lemma_api_1_3_value();
}

/// Whenever some device has Vulkan 1.3 and, if required, presentation, the
/// device that selection picks has them too.
pub proof fn law_selected_device_usable(devices: Seq<DeviceCandidate>, require_presentation: bool, i: int, j: int)
    requires
        is_last_max(device_scores(devices, require_presentation), i),
        0 <= j < devices.len(),
        devices[j].api_version >= 0x0040_3000,
        !require_presentation || devices[j].supports_presentation,
    ensures
        devices[i].api_version >= 0x0040_3000,
        require_presentation ==> devices[i].supports_presentation,
{
    let scores = device_scores(devices, require_presentation);
    law_device_score(devices[j], devices[j], require_presentation);
    law_device_score(devices[i], devices[i], require_presentation);
    assert(scores[j] == spec_device_score(devices[j], require_presentation));
    assert(scores[i] == spec_device_score(devices[i], require_presentation));
    assert(scores[j] <= scores[i]);
}

} // verus!
