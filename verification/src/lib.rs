//! Node-graph document model and evaluation-preparation layer of a vector
//! graphics editor.
//!
//! The crate has three tightly coupled parts:
//!
//! * a registry of built-in node type descriptors (name, category, input and
//!   output slots, default values, implementation),
//! * a network compiler that instantiates descriptors into concrete nodes,
//!   inlines nested sub-networks until only primitive operations remain, and
//!   wraps networks with free inputs in a begin/end scope pair, and
//! * a scene-graph renderer that serialises evaluated scene values (groups,
//!   artboards, image frames, vector shapes) to a nested-tag markup document
//!   while accumulating axis-aligned bounding boxes.
//!
//! All numeric data is held in a fixed-point decimal representation so that
//! every computation in the crate is exact integer arithmetic.

pub mod adjustments;
pub mod catalog;
pub mod compiler;
pub mod document;
pub mod fixed;
pub mod geom;
pub mod registry;
pub mod render;
pub mod scene;
pub mod text;
pub mod value;

pub use fixed::Fixed;
