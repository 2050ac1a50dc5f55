//! A small 2D scene engine for a browser canvas, with its rules proved.
//!
//! A scene is a tree of components. Each frame the engine updates the tree
//! with children before their parents, so that a parent has the last word on
//! its children's state, then renders it layer by layer into draw calls in
//! world coordinates, and finally ends the frame for the input state machine.
//! Drawing, timing and event listening belong to the host.

pub mod component;
pub mod dimensions;
pub mod engine;
pub mod error;
pub mod field_validator;
pub mod input;
pub mod key_state_map;
pub mod keyboard;
pub mod mouse;
pub mod render;
pub mod scene;
pub mod schema;
pub mod shape_factory;
pub mod text;
pub mod transform;
pub mod vertex2;

pub use component::{Component, Context, Layer, Node, Renderable};
pub use engine::Engine;
pub use error::Error;
pub use keyboard::Button as Key;
pub use mouse::Button as Mouse;
pub use transform::Transform;
pub use vertex2::Vertex2;
