# vulkan_app

A small Vulkan renderer bring-up whose decisions are proved correct.

- `src/` is the verified library: it chooses the physical device, its queue
  families, the swapchain's format, present mode, extent and image count,
  plans the instance and the logical device, prepares shader bytecode and
  routes validation messages to log levels. `src/laws.rs` states properties
  that relate these functions.
- `app/` is the program: it opens the window, talks to the Vulkan driver
  through `vulkanalia`, hands what it reads to the library and applies the
  plans that come back.
- `tests/` runs the library on concrete values.
