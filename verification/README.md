# magma

A small Vulkan game engine whose decision logic is a library verified with
Verus.

- `src/` is the library. It holds what the engine decides and keeps track
  of: which physical device, queue families, memory types and formats to
  use; how a swapchain is configured and how frames are synchronised; the
  lifecycle of command buffers and frames; how a descriptor set is allocated
  from pools that grow and are recycled, and the cache of descriptor set
  layouts; the checks a graphics pipeline makes of its shaders and vertex
  type, and the stages and push constant range it is made of; the rules the
  `UniformBuffer` and `Vertex` derives follow; keyboard input; entities,
  worlds and the application's active world. Every public function states
  its result in its contract, and the laws that span several calls are
  proof functions next to the code they speak of.
- `app/` is the engine around the library: the calls into the Vulkan driver
  (ash), the window system (winit), `.obj` loading (tobj), shader reflection of
  input variables (spirv-reflect), floating-point maths (glam) and the derive
  helpers (syn, quote, darling). It converts driver values to the library's
  plain values and acts on the library's answers.
- `tests/` exercises the library on concrete values.
