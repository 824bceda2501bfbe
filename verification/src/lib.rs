//! The decision core of a small OpenGL bootstrap: viewport arithmetic, the
//! protocol by which a shader or a program is built and its status checked,
//! and the test that ends the render loop.
//!
//! Nothing here talks to a driver or a window system. A caller performs the
//! requests that the library hands out and feeds the answers back.

pub mod driver;
pub mod input;
pub mod protocol;
pub mod text;
pub mod types;
