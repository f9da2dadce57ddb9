//! Descriptions of buffers: data that is stored with the graphics context.

use vstd::prelude::*;

verus! {

/// Marks data that may be handed to a buffer as it lies in memory.
///
/// A type that implements this trait must have the C representation, without
/// padding that would be read as data. The compiler cannot hold a type to
/// that: whoever implements the trait answers for it.
pub trait FlatData {

}

#[derive(Copy, Clone, Debug, PartialEq, Eq, Structural)]
pub enum Kind {
    Vertex,
}

#[derive(Clone, Copy, Debug, PartialEq, Eq, Structural)]
pub enum Access {
    Once,
    Frequent,
    Always,
}

#[derive(Clone, Copy, Debug, PartialEq, Eq, Structural)]
pub enum Usage {
    Write,
    Read,
    Copy,
}

impl Default for Access {
    fn default() -> (access: Self)
        ensures
            access == Access::Once,
    {
        Access::Once
    }
}

impl Default for Usage {
    fn default() -> (usage: Self)
        ensures
            usage == Usage::Write,
    {
        Usage::Write
    }
}

#[derive(Copy, Clone)]
pub struct Buffer<'a, T: FlatData> {
    pub kind: Kind,
    pub access: Access,
    pub usage: Usage,
    pub data: Option<&'a [T]>,
}

impl<'a, T: FlatData> Buffer<'a, T> {
    /// A vertex buffer without data, written once.
    #[must_use]
    pub fn new() -> (buffer: Self)
        ensures
            buffer.kind == Kind::Vertex,
            buffer.access == Access::Once,
            buffer.usage == Usage::Write,
            buffer.data is None,
    {
        Self { kind: Kind::Vertex, access: Access::Once, usage: Usage::Write, data: None }
    }

    #[must_use]
    pub fn with_vertex_data(access: Access, usage: Usage, data: &'a [T]) -> (buffer: Self)
        ensures
            buffer.kind == Kind::Vertex,
            buffer.access == access,
            buffer.usage == usage,
            buffer.data == Some(data),
    {
        Self { data: Some(data), kind: Kind::Vertex, access, usage }
    }

    /// The number of bytes that the data of the buffer takes; nothing where
    /// it has no data.
    pub open spec fn byte_len(&self) -> nat {
        match self.data {
            Some(data) => data@.len() * vstd::layout::size_of::<T>(),
            None => 0,
        }
    }
}

impl FlatData for u8 {

}

impl FlatData for u16 {

}

impl FlatData for u32 {

}

impl FlatData for u64 {

}

impl FlatData for i8 {

}

impl FlatData for i16 {

}

impl FlatData for i32 {

}

impl Kind {
    pub open spec fn name_text(self) -> Seq<char> {
        "vertex"@
    }

    /// The name of the kind, in lower case.
    #[must_use]
    pub fn name(&self) -> (name: &'static str)
        ensures
            name@ == self.name_text(),
    {
        match self {
            Self::Vertex => "vertex",
        }
    }
}

} // verus!
