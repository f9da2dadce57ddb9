//! Descriptions of shader stages and shader programs.

use vstd::prelude::*;

verus! {

#[derive(Copy, Clone, Debug, PartialEq, Eq, Structural)]
pub enum Kind {
    Vertex,
    Fragment,
}

#[derive(Copy, Clone)]
pub struct Stage<'a> {
    pub kind: Kind,
    pub sources: &'a [&'a str],
}

impl<'a> Stage<'a> {
    #[must_use]
    pub fn new_vertex(sources: &'a [&'a str]) -> (stage: Self)
        ensures
            stage.kind == Kind::Vertex,
            stage.sources == sources,
    {
        Self { kind: Kind::Vertex, sources }
    }

    #[must_use]
    pub fn new_fragment(sources: &'a [&'a str]) -> (stage: Self)
        ensures
            stage.kind == Kind::Fragment,
            stage.sources == sources,
    {
        Self { kind: Kind::Fragment, sources }
    }
}

/// A shader program: stages that were created before, named by their
/// handles, and stages that are compiled for this program alone.
#[derive(Clone, Copy)]
pub struct Shader<'a> {
    pub stages: &'a [crate::StageHandle],
    pub stage_sources: &'a [Stage<'a>],
}

impl<'a> Shader<'a> {
    #[must_use]
    pub fn with_stages(stages: &'a [Stage<'a>]) -> (shader: Self)
        ensures
            shader.stages@.len() == 0,
            shader.stage_sources == stages,
    {
        Self { stages: &[], stage_sources: stages }
    }

    #[must_use]
    pub fn with_handles(handles: &'a [crate::StageHandle]) -> (shader: Self)
        ensures
            shader.stages == handles,
            shader.stage_sources@.len() == 0,
    {
        Self { stages: handles, stage_sources: &[] }
    }
}

/// Marks the shader programs of a native API.
pub trait Native {

}

impl Kind {
    pub open spec fn name_text(self) -> Seq<char> {
        match self {
            Kind::Vertex => "vertex"@,
            Kind::Fragment => "fragment"@,
        }
    }

    /// The name of the kind, in lower case.
    #[must_use]
    pub fn name(&self) -> (name: &'static str)
        ensures
            name@ == self.name_text(),
    {
        match self {
            Self::Vertex => "vertex",
            Self::Fragment => "fragment",
        }
    }
}

} // verus!
