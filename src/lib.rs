//! Integration of an immediate-mode GUI into a game engine's frame loop:
//! the frame-time statistics the GUI's backend reports, the per-frame input
//! snapshot, and the conversion of painted triangles into render meshes.
pub mod backend;
pub mod egui_plugin;
pub mod frame_times;
pub mod mesh;
