//! Frame planning for a deferred renderer.
//!
//! The crate decides *what* a frame consists of: which attachments exist and
//! how large they are, which subpass reads what, which commands are recorded
//! in which order, and how the swapchain life cycle reacts to stale surfaces.
//! Everything is expressed over plain values, so the decisions can be proved
//! once and then replayed against a graphics device by the embedding program.

pub mod camera;
pub mod commands;
pub mod egui;
pub mod frame;
pub mod mesh;
pub mod renderer;
pub mod resources;
pub mod system;
pub mod texture;
