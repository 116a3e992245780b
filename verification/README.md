# supernova

The logic of the Supernova game and its Propellant engine, verified with Verus.

- `src/` is the library: CSG trees and their flattening to the GPU node layout,
  packed tree sets, asset collections and the layout of segments in the GPU
  buffer, update planning of scene systems, frame pacing, and the choices the
  engine makes about Vulkan devices (queue families, features, extensions,
  swapchain format, present mode, extent and image count, memory types, buffer
  views and copies). Every function states what it returns in its contract.
- `app/` is the game around it: the window and event loop, Vulkan object
  creation and command recording, asset files on disk, the ECS scene and the
  float math of cameras and transforms.
- `tests/` runs the library on concrete values.
