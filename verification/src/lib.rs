//! Verified decision logic for bringing up a Vulkan renderer: choosing a
//! physical device and its queue families, planning the instance, the logical
//! device and the swapchain, and checking shader bytecode. The driver calls
//! themselves are made by the application around this library, which hands
//! the queried values in and applies the plans that come back.

pub mod model;
pub mod error;
pub mod swapchain;
pub mod queues;
pub mod names;
pub mod instance;
pub mod device;
pub mod shader;
pub mod debug;
pub mod laws;
pub mod behaviour;
