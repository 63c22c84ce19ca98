//! Verified core of a Vulkan GPU context: the decisions that the context makes
//! about devices, queues, descriptors, resources, pipelines and surfaces.

pub mod version;
pub mod selection;
pub mod device;
pub mod descriptor;
pub mod resource;
pub mod image;
pub mod registry;
pub mod queue;
pub mod pipeline;
pub mod surface;
pub mod validation;
pub mod commands;
pub mod mesh;
pub mod shader;
pub mod window;
