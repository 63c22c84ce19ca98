use vstd::prelude::*;

verus! {

/// How a resource's memory is reached from the host.
#[derive(Clone, Copy, Debug, PartialEq, Eq, Structural)]
pub enum TransferMode {
    Auto,
    AutoUpload,
    AutoDownload,
    Stream,
}

impl Default for TransferMode {
    fn default() -> (r: Self)
        ensures
            r == TransferMode::Auto,
    {
        TransferMode::Auto
    }
}

} // verus!
verus! {

/// Array binding of the bindless descriptor set that holds each kind of
/// resource.
pub const BUFFER_BINDING: u32 = 0;
pub const STORAGE_IMAGE_BINDING: u32 = 1;
pub const SAMPLED_IMAGE_BINDING: u32 = 2;
pub const SAMPLER_BINDING: u32 = 3;
pub const ACCELERATION_STRUCTURE_BINDING: u32 = 4;

/// A label type that names one synchronized resource.
pub trait SyncLabel: Send + Sync {}

/// A label that names a buffer.
pub trait BufferLabel: SyncLabel {}

/// A label that names an image.
pub trait ImageLabel: SyncLabel {}

/// What a buffer is created with.
#[derive(Clone, Copy, Debug)]
pub struct BufferInfo {
    pub transfer_mode: TransferMode,
    pub size: usize,
    pub shader_mutable: bool,
    pub debug_name: &'static str,
}

impl Default for BufferInfo {
    fn default() -> (r: Self)
        ensures
            r.transfer_mode == TransferMode::Auto,
            r.size == 0,
            !r.shader_mutable,
            r.debug_name@ == ""@,
    {
        BufferInfo { transfer_mode: TransferMode::Auto, size: 0, shader_mutable: false, debug_name: "" }
    }
}

/// Raw bits of `VkBufferUsageFlags`.
pub const BUFFER_USAGE_TRANSFER_SRC: u32 = 1;
pub const BUFFER_USAGE_TRANSFER_DST: u32 = 2;
pub const BUFFER_USAGE_STORAGE_BUFFER: u32 = 32;

/// The Vulkan parameters of a storage buffer.
#[derive(Clone, Copy, Debug, PartialEq, Eq)]
pub struct BufferPlan {
    pub size: u64,
    pub usage: u32,
    /// The queue families that share the buffer: graphics, compute, transfer.
    pub queue_families: [u32; 3],
    /// Whether the memory is persistently mapped for random host access.
    pub host_mapped: bool,
}

/// Whether memory of this transfer mode is mapped into the host.
pub open spec fn spec_host_mapped(mode: TransferMode) -> bool {
    mode == TransferMode::Stream
}

/// Whether memory of this transfer mode is mapped into the host: only
/// streamed memory is; all modes prefer device-local memory.
pub fn host_mapped(mode: TransferMode) -> (r: bool)
    ensures
        r == spec_host_mapped(mode),
{
    match mode {
        TransferMode::Auto | TransferMode::AutoUpload | TransferMode::AutoDownload => false,
        TransferMode::Stream => true,
    }
}

/// Plans a storage buffer: its size in bytes, transfer and storage usage,
/// shared by the three queue families, mapped when streamed.
pub fn plan_buffer(info: &BufferInfo, queue: &crate::device::QueueProperties) -> (r: BufferPlan)
    ensures
        r.size == info.size as u64,
        r.usage == BUFFER_USAGE_TRANSFER_SRC | BUFFER_USAGE_TRANSFER_DST
            | BUFFER_USAGE_STORAGE_BUFFER,
        r.queue_families@ == seq![queue.graphics_family, queue.compute_family, queue.transfer_family],
        r.host_mapped == spec_host_mapped(info.transfer_mode),
{
    BufferPlan {
        size: info.size as u64,
        usage: BUFFER_USAGE_TRANSFER_SRC | BUFFER_USAGE_TRANSFER_DST | BUFFER_USAGE_STORAGE_BUFFER,
        queue_families: [queue.graphics_family, queue.compute_family, queue.transfer_family],
        host_mapped: host_mapped(info.transfer_mode),
    }
}

} // verus!
