# sim2d

Frame-in-flight bookkeeping, resource N-buffering, and the device, queue,
memory and swapchain selection rules of a small Vulkan 2D renderer, written
in Verus with their contracts proved.

- `src/` is the verified library. Vulkan values enter it as plain numbers
  (flags, enum codes, raw handles) in the library's own types.
- `tests/` exercises the library on concrete values.
- `app/` is the Vulkan side: it queries the driver through `ash`, converts
  what it gets into the library's types, and acts on the library's answers.
  Its `main` lists the devices that meet the renderer's requirements and
  reports the one it would pick.
