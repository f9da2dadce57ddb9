//! The kinds of resource. A handle of one kind fits no pool of another.

use vstd::prelude::*;

verus! {

pub struct Buffer;

pub struct VertexLayout;

pub struct Shader;

pub struct Stage;

pub struct RenderTarget;

} // verus!
