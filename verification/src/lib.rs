//! Verified core logic of the Alkahest tag browser and renderer: tag type
//! classification, string helpers, tag data scanning and traversal, browser
//! search filters and view rows, render state tracking, asset and surface
//! registries, profiler bookkeeping, work partitioning and culling, world
//! pass plans, decorator instance groups, input layouts and debug text
//! layout.

pub mod tagtypes;
pub mod text;
pub mod tagscan;
pub mod taginput;
pub mod traverse;
pub mod scan_result;
pub mod filters;
pub mod views;
pub mod gui;
pub mod render_state;
pub mod asset;
pub mod asset_manager;
pub mod profiler;
pub mod submit;
pub mod surface;
pub mod object;
pub mod model;
pub mod gpu_buffer;
pub mod input_layout;
pub mod decorator;
pub mod world;
pub mod debug_text;
pub mod globals;
pub mod render_types;
