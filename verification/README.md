# vk_engine

A small Vulkan/winit rendering engine and a "hello people" bevy plugin.

- `src/` is the verified library:
  - `device.rs`: choice of the physical device and of its graphics queue family;
  - `swapchain.rs`: the parameters a swapchain is created with;
  - `window.rs`: the window front end and its redraw/resize state machine;
  - `people.rs`: the people systems of the hello plugin.
- `app/` runs the program: the bevy application, and the code that talks to
  the Vulkan driver and to the windowing system, feeding the library plain
  values and acting on what it decides.
- `tests/` exercises the library on concrete values.
