# paracosm_gpu

A Vulkan GPU context whose decisions are verified with Verus.

- `src/` is the verified library: Vulkan version packing, device scoring and
  selection, queue family classification, the bindless descriptor slot
  allocator, the resource registry (buffers, images, sync labels), buffer and
  image creation plans, the per-queue frame graphs with their submit sets and
  timeline semaphore schedule, the pipeline and shader module cache with the
  plan of which shader sources to build, the stages and attachments of a
  pipeline, surface format selection and frame slots, validation message
  tagging, mesh buffers and the shader asset loader. Public functions state
  their results in `ensures`; the registry and the pipeline manager keep
  their well-formedness as type invariants; the `law_*` proof functions state
  what holds across calls.
- `app/` drives Vulkan through `ash`, `vk-mem` and `ash-window` with those
  decisions: instance and device creation (with or without a window), memory
  allocation, shader builds, command recording, submission and presentation.
- `tests/` runs the library on concrete values.
