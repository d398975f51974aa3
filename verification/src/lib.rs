//! Decision logic of a small Vulkan/winit rendering engine and of the
//! "hello people" bevy plugin: device and queue selection, swapchain
//! parameters, the window's redraw/resize state machine, and the people
//! systems.  The code that talks to the GPU, the windowing system and the
//! ECS lives in `app/`.

pub mod people;
pub mod device;
pub mod swapchain;
pub mod window;
