//! Render passes, their attachments and the pipelines that draw into them.

pub mod deferred;
pub mod render_pass;
pub mod shadow_map;
pub mod triangle_draw_system;
