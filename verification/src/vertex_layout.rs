//! Descriptions of vertex layouts: which attributes a vertex has, and which
//! buffer each set of attributes is read from.

use crate::error::{Error, Failure};
use crate::BufferHandle;
use vstd::prelude::*;

verus! {

#[derive(Copy, Clone, Debug, PartialEq, Eq, Structural)]
pub enum Components {
    Scalar,
    Vec2,
    Vec3,
    Vec4,
}

impl Components {
    pub open spec fn number(self) -> nat {
        match self {
            Components::Scalar => 1,
            Components::Vec2 => 2,
            Components::Vec3 => 3,
            Components::Vec4 => 4,
        }
    }

    /// The number of components, from one to four.
    #[must_use]
    pub fn count(&self) -> (count: u8)
        ensures
            count == self.number(),
    {
        match self {
            Self::Scalar => 1,
            Self::Vec2 => 2,
            Self::Vec3 => 3,
            Self::Vec4 => 4,
        }
    }
}

#[derive(Copy, Clone, Debug, PartialEq, Eq, Structural)]
pub enum AttributeKind {
    F32,
    U8,
}

impl AttributeKind {
    pub open spec fn bytes(self) -> nat {
        match self {
            AttributeKind::F32 => 4,
            AttributeKind::U8 => 1,
        }
    }

    /// The size of one component, in bytes.
    #[must_use]
    pub fn size(&self) -> (size: usize)
        ensures
            size == self.bytes(),
    {
        match self {
            Self::F32 => 4,
            Self::U8 => 1,
        }
    }
}

#[derive(Copy, Clone, Debug, PartialEq, Eq, Structural)]
pub enum Stride {
    Interleaved,
    Bytes(usize),
}

impl Default for Stride {
    fn default() -> (stride: Self)
        ensures
            stride == Stride::Interleaved,
    {
        Stride::Interleaved
    }
}

#[derive(Copy, Clone, Debug, PartialEq, Eq, Structural)]
pub struct VertexAttribute {
    pub location: u8,
    pub components: Components,
    pub kind: AttributeKind,
    pub normalized: bool,
    pub local_offset: usize,
}

impl VertexAttribute {
    #[must_use]
    pub fn with_f32(location: u8, components: Components, local_offset: usize) -> (attribute: Self)
        ensures
            attribute == (VertexAttribute {
                location,
                components,
                kind: AttributeKind::F32,
                normalized: false,
                local_offset,
            }),
    {
        Self { location, components, kind: AttributeKind::F32, normalized: false, local_offset }
    }

    /// The number of bytes that the attribute takes in a vertex.
    pub open spec fn bytes(self) -> nat {
        self.kind.bytes() * self.components.number()
    }
}

/// The bytes that the attributes take together, one after the other.
pub open spec fn packed_bytes(attributes: Seq<VertexAttribute>) -> nat
    decreases attributes.len(),
{
    if attributes.len() == 0 {
        0
    } else {
        packed_bytes(attributes.drop_last()) + attributes.last().bytes()
    }
}

/// A set of attributes that are read from one buffer.
#[derive(Clone)]
pub struct BufferAttributes {
    pub attributes: Vec<VertexAttribute>,
    pub buffer: Option<BufferHandle>,
    pub stride: Stride,
    pub offset: usize,
}

/// What a [`BufferAttributes`] holds.
pub struct AttributeSet {
    pub attributes: Seq<VertexAttribute>,
    pub buffer: Option<BufferHandle>,
    pub stride: Stride,
    pub offset: usize,
}

impl AttributeSet {
    /// The distance in bytes from one vertex to the next: the bytes that
    /// were asked for, or else what the attributes take together.
    pub open spec fn stride(self) -> nat {
        match self.stride {
            Stride::Bytes(bytes) => bytes as nat,
            Stride::Interleaved => packed_bytes(self.attributes),
        }
    }
}

impl View for BufferAttributes {
    type V = AttributeSet;

    open spec fn view(&self) -> AttributeSet {
        AttributeSet {
            attributes: self.attributes@,
            buffer: self.buffer,
            stride: self.stride,
            offset: self.offset,
        }
    }
}

impl Default for BufferAttributes {
    fn default() -> (set: Self)
        ensures
            set@ == (AttributeSet {
                attributes: Seq::empty(),
                buffer: None,
                stride: Stride::Interleaved,
                offset: 0,
            }),
    {
        Self { attributes: Vec::new(), buffer: None, stride: Stride::Interleaved, offset: 0 }
    }
}

impl BufferAttributes {
    /// The distance in bytes from one vertex to the next, or `None` where
    /// the machine cannot count that far. It is computed from the attributes
    /// at each call.
    #[must_use]
    pub fn checked_stride(&self) -> (stride: Option<usize>)
        ensures
            match stride {
                Some(stride) => stride == self@.stride(),
                None => self@.stride() > usize::MAX,
            },
    {
        match self.stride {
            Stride::Bytes(bytes) => Some(bytes),
            Stride::Interleaved => {
                let mut sum: usize = 0;
                let mut at: usize = 0;
                while at < self.attributes.len()
                    invariant
                        self.stride == Stride::Interleaved,
                        at <= self.attributes@.len(),
                        sum == packed_bytes(self.attributes@.take(at as int)),
                    decreases self.attributes@.len() - at,
                {
                    let attribute = &self.attributes[at];
                    let count = attribute.components.count();
                    let size = attribute.kind.size();
                    assert(size * count == attribute.bytes() && size * count <= 16)
                        by (nonlinear_arith)
                        requires
                            attribute.bytes() == size * count,
                            size <= 4,
                            count <= 4,
                    ;
                    let bytes: usize = size * (count as usize);
                    proof {
                        assert(self.attributes@.take(at + 1).drop_last() =~= self.attributes@.take(
                            at as int,
                        ));
                        assert(self.attributes@.take(at + 1).last() == *attribute);
                        assert(packed_bytes(self.attributes@.take(at + 1)) == sum + bytes);
                    }
                    match sum.checked_add(bytes) {
                        Some(next) => {
                            sum = next;
                        },
                        None => {
                            proof {
                                lemma_packed_bytes_grows(
                                    self.attributes@,
                                    at + 1,
                                    self.attributes@.len() as int,
                                );
                                assert(self.attributes@.take(self.attributes@.len() as int)
                                    =~= self.attributes@);
                            }
                            return None;
                        },
                    }
                    at = at + 1;
                }
                proof {
                    assert(self.attributes@.take(at as int) =~= self.attributes@);
                }
                Some(sum)
            },
        }
    }

    /// The distance in bytes from one vertex to the next. It is computed from
    /// the attributes at each call.
    #[must_use]
    pub fn stride(&self) -> (stride: usize)
        requires
            self@.stride() <= usize::MAX,
        ensures
            stride == self@.stride(),
    {
        match self.checked_stride() {
            Some(stride) => stride,
            None => 0,
        }
    }
}

/// The bytes of the first attributes are no more than the bytes of more of
/// them.
pub proof fn lemma_packed_bytes_grows(attributes: Seq<VertexAttribute>, fewer: int, more: int)
    requires
        0 <= fewer <= more <= attributes.len(),
    ensures
        packed_bytes(attributes.take(fewer)) <= packed_bytes(attributes.take(more)),
    decreases more - fewer,
{
    if fewer < more {
        lemma_packed_bytes_grows(attributes, fewer, more - 1);
        assert(attributes.take(more).drop_last() =~= attributes.take(more - 1));
    }
}

/// Marks the vertex layouts of a native API.
pub trait Native {

}

#[derive(Clone)]
pub struct VertexLayout {
    pub attributes: Vec<BufferAttributes>,
}

impl View for VertexLayout {
    type V = Seq<AttributeSet>;

    open spec fn view(&self) -> Seq<AttributeSet> {
        Seq::new(self.attributes@.len(), |i: int| self.attributes@[i]@)
    }
}

impl VertexLayout {
    /// A layout without attributes.
    #[must_use]
    pub fn new() -> (layout: Self)
        ensures
            layout@ == Seq::<AttributeSet>::empty(),
    {
        let layout = Self { attributes: Vec::new() };
        assert(layout@ =~= Seq::<AttributeSet>::empty());
        layout
    }

    /// Adds a set of attributes, in the order given. The set has no buffer
    /// yet, and packs its attributes.
    pub fn push_attributes<const N: usize>(&mut self, attributes: [VertexAttribute; N])
        ensures
            final(self)@ == old(self)@.push(
                AttributeSet {
                    attributes: attributes@,
                    buffer: None,
                    stride: Stride::Interleaved,
                    offset: 0,
                },
            ),
    {
        let mut copied: Vec<VertexAttribute> = Vec::with_capacity(N);
        let mut at: usize = 0;
        while at < N
            invariant
                at <= N,
                attributes@.len() == N,
                copied@ == attributes@.take(at as int),
            decreases N - at,
        {
            copied.push(attributes[at]);
            assert(copied@ =~= attributes@.take(at + 1));
            at = at + 1;
        }
        assert(copied@ =~= attributes@);
        self.attributes.push(
            BufferAttributes {
                attributes: copied,
                buffer: None,
                stride: Stride::Interleaved,
                offset: 0,
            },
        );
        assert(self@ =~= old(self)@.push(
            AttributeSet {
                attributes: attributes@,
                buffer: None,
                stride: Stride::Interleaved,
                offset: 0,
            },
        ));
    }

    /// Sets the buffer of one set of attributes, which is named by its index.
    ///
    /// Where no set has that index, nothing changes and the error is
    /// `ResourceNotFound`: create the set first.
    pub fn set_buffer(
        &mut self,
        index: usize,
        buffer: BufferHandle,
        stride: Stride,
        offset: usize,
    ) -> (done: Result<(), Error>)
        ensures
            index < old(self)@.len() ==> done is Ok && final(self)@ == old(self)@.update(
                index as int,
                AttributeSet {
                    attributes: old(self)@[index as int].attributes,
                    buffer: Some(buffer),
                    stride,
                    offset,
                },
            ),
            index >= old(self)@.len() ==> final(self)@ == old(self)@ && (done matches Err(error)
                && error@ == Failure::ResourceNotFound),
    {
        if index < self.attributes.len() {
            let set = &mut self.attributes[index];
            set.buffer = Some(buffer);
            set.stride = stride;
            set.offset = offset;
            assert(self@ =~= old(self)@.update(
                index as int,
                AttributeSet {
                    attributes: old(self)@[index as int].attributes,
                    buffer: Some(buffer),
                    stride,
                    offset,
                },
            ));
            Ok(())
        } else {
            assert(self@ =~= old(self)@);
            Err(Error::ResourceNotFound)
        }
    }
}

} // verus!
