//! Frame recording for a small OpenGL renderer: a byte arena for
//! per-frame task payloads, the frame's task lists, and the render-state
//! cache that decides which driver calls are needed.

pub mod draw_order;
pub mod frame;
pub mod graphics;
pub mod task_buffer;
pub mod task_value;
pub mod visitor;
