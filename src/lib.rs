//! A retained-mode scene core for a Vulkan renderer: resource pools, shape
//! instances sorted into draw partitions, uniform payloads, the style
//! catalogue, texture uploads and per-frame draw plans. The device work that
//! carries these plans out lives outside the verified library.

pub mod handle;
pub mod order;
pub mod pool;
pub mod renderer;
pub mod style;
pub mod swapchain;
pub mod texture;
pub mod uniform;
