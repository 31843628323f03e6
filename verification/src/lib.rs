//! Verified planning and lookup logic of a four-dimensional renderer.
//!
//! The crate holds the parts of the renderer and its front end that decide
//! things from plain values: render option enums and their labels, the voxel
//! traversal engine's CPU lookups, buffer-span clamping and capacity growth,
//! per-frame dispatch planning, BVH topology summaries, screen capture byte
//! handling and small pieces of user-interface state logic.
pub mod render;
pub mod voxel_lookup;
pub mod buffer_spans;
pub mod bvh_topology;
pub mod frame_plan;
pub mod text;
pub mod ui_routes;
pub mod geometry;
pub mod cli_options;
pub mod session;
pub mod capture;
pub mod egui_paint;
pub mod diag_compare;
pub mod diagnostics;
pub mod device_select;
