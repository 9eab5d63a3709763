# grass_rendering

A small Vulkan renderer built on Bevy's ECS, split in two:

- `src/` is a library verified with Verus. It holds what the renderer decides and computes:
  the slot storage behind render assets and their handles, the frame loop's reaction to
  acquire and present results, the choice of physical device, queue family, surface format,
  extent, image count and depth format, the descriptor layout, pool and writes for each frame
  in flight, the command sequences recorded for a frame and for an image upload (with every
  argument of each Vulkan call), the objects each frame submits and presents with, the
  fixed-function pipeline state, mesh assembly
  from glTF primitive streams, the vertex layout, the camera's key turns, and the `slangc`
  command line.
- `app/` is the program around it: the winit event loop, Bevy plugins and systems, and every
  call into Vulkan (through `ash`), `gpu-allocator`, `gltf`, `dolly` and the process that runs
  the shader compiler. It converts between Vulkan handles and the plain values the library
  works on, and replays the commands the library plans.

`tests/` exercises the library, including checks that its raw Vulkan values agree with `ash`.
