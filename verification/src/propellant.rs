//! Propellant, the engine running the game: assets, scenes and the
//! decisions taken while driving the Vulkan renderer.
pub mod assets;
pub mod components;
pub mod renderer;
pub mod scene;
pub mod vulkan;
