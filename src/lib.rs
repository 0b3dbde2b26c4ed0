//! Rendering of system metrics as fixed-width text rows for a terminal dashboard.
//!
//! Field identifiers name the quantities of each metric model; a `ViewItem` binds
//! one of them to a `RenderConfig`; the row builders lay out a label followed by
//! (title, value) or (entity name, value) columns; `SystemView` holds the five
//! rows built from one snapshot.
use vstd::prelude::*;

pub mod model;
pub mod model_map;
pub mod render_config;
pub mod system_view;
pub mod text;
pub mod view_item;

verus! {

} // verus!
