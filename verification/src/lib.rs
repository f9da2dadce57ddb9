//! A thin, stateful layer in front of an immediate-mode graphics API.
//!
//! Client code creates buffers, vertex layouts, shader programs and render
//! targets through generational handles. The layer keeps the registry of
//! native objects, remembers what is currently bound, and records every call
//! that has to reach the native API as a [`native::Command`].

use vstd::prelude::*;

pub mod buffer;
pub mod color32;
pub mod error;
pub mod gen_vec;
pub mod handle;
pub mod image;
pub mod math;
pub mod native;
pub mod opengl;
pub mod render_target;
pub mod shader;
pub mod vertex_layout;

pub use buffer::Buffer;
pub use color32::ColorBits;
pub use error::Error;
pub use gen_vec::Handle;
pub use render_target::RenderTarget;
pub use vertex_layout::VertexLayout;

verus! {

pub type BufferHandle = Handle<handle::Buffer>;

pub type VertexLayoutHandle = Handle<handle::VertexLayout>;

pub type StageHandle = Handle<handle::Stage>;

pub type ShaderHandle = Handle<handle::Shader>;

pub type RenderTargetHandle = Handle<handle::RenderTarget>;

/// The shapes that a draw call assembles the vertices into.
#[derive(Copy, Clone, Debug, PartialEq, Eq, Structural)]
pub enum Primitive {
    Triangles,
    TriangleStrip,
}

} // verus!
