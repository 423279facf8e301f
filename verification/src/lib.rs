//! Decisions of the 2D line gizmo render pipelines: how a view's key is
//! built, how a pipeline is specialized for a key, and which gizmos are
//! queued into which view.

pub mod mesh_key;
pub mod render_layers;
pub mod config;
pub mod pipeline;
pub mod queue;
pub mod laws;
