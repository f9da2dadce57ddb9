//! Vertex layouts as the native API holds them.

use crate::error::{Error, Failure};
use crate::gen_vec::{Arena, GenVec};
use crate::handle;
use crate::native::{to_i32, to_isize, to_u32, Command, Trace, BYTE, FLOAT};
use crate::vertex_layout::{AttributeKind, AttributeSet, BufferAttributes, VertexAttribute};
use crate::VertexLayout;
use vstd::prelude::*;
use vstd::std_specs::convert::FromSpecImpl;

verus! {

/// A vertex layout of the native API, by its name there.
#[derive(Debug)]
pub struct Native {
    id: u32,
}

/// The type that the native API names the components of an attribute by.
pub open spec fn type_of(kind: AttributeKind) -> u32 {
    match kind {
        AttributeKind::F32 => FLOAT,
        AttributeKind::U8 => BYTE,
    }
}

impl From<AttributeKind> for u32 {
    fn from(value: AttributeKind) -> (kind: u32) {
        match value {
            AttributeKind::F32 => FLOAT,
            AttributeKind::U8 => BYTE,
        }
    }
}

impl FromSpecImpl<AttributeKind> for u32 {
    open spec fn obeys_from_spec() -> bool {
        true
    }

    open spec fn from_spec(value: AttributeKind) -> u32 {
        type_of(value)
    }
}

/// What describing one attribute of the set at `index` asks for: the
/// attribute is enabled, its shape is set, and it is tied to the binding
/// point of its set.
pub open spec fn attribute(attribute: VertexAttribute, index: int) -> Trace {
    if attribute.local_offset > u32::MAX {
        Trace::unfit("local attribute offset to GLuint"@)
    } else if index > u32::MAX {
        Trace::unfit("attribute index to GLuint"@)
    } else {
        Trace::done(
            seq![
                Command::EnableVertexAttribArray { index: attribute.location as u32 },
                Command::VertexAttribFormat {
                    index: attribute.location as u32,
                    size: attribute.components.number() as i32,
                    kind: type_of(attribute.kind),
                    normalized: attribute.normalized,
                    relative_offset: attribute.local_offset as u32,
                },
                Command::VertexAttribBinding {
                    index: attribute.location as u32,
                    binding: index as u32,
                },
            ],
        )
    }
}

/// What describing the attributes of the set at `index` asks for, one
/// attribute after the other, up to the first that fails.
pub open spec fn attribute_set(attributes: Seq<VertexAttribute>, index: int) -> Trace
    decreases attributes.len(),
{
    if attributes.len() == 0 {
        Trace::nothing()
    } else {
        attribute_set(attributes.drop_last(), index).and_then(attribute(attributes.last(), index))
    }
}

/// What describing the attributes of all sets asks for, one set after the
/// other, up to the first attribute that fails.
pub open spec fn attribute_sets(sets: Seq<AttributeSet>) -> Trace
    decreases sets.len(),
{
    if sets.len() == 0 {
        Trace::nothing()
    } else {
        attribute_sets(sets.drop_last()).and_then(
            attribute_set(sets.last().attributes, sets.len() - 1),
        )
    }
}

/// What binding the buffer of the set at `location` asks for. A set without
/// a buffer asks for nothing. Otherwise the buffer has to be in the pool,
/// and the location, the offset and the stride have to fit the native call.
pub open spec fn buffer_binding(
    set: AttributeSet,
    location: int,
    buffers: Arena<super::buffer::Native>,
) -> Trace {
    match set.buffer {
        None => Trace::nothing(),
        Some(handle) => match buffers.get(handle@) {
            None => Trace::failed(Failure::ResourceNotFound),
            Some(buffer) => if location > u32::MAX {
                Trace::unfit("buffer location wraps"@)
            } else if set.offset > isize::MAX {
                Trace::unfit("buffer offset wraps"@)
            } else if set.stride() > i32::MAX {
                Trace::unfit("buffer stride wraps"@)
            } else {
                Trace::done(
                    seq![
                        Command::BindVertexBuffer {
                            binding: location as u32,
                            buffer: buffer.id(),
                            offset: set.offset as isize,
                            stride: set.stride() as i32,
                        },
                    ],
                )
            },
        },
    }
}

/// What binding the buffers of all sets asks for, one set after the other,
/// up to the first that fails.
pub open spec fn buffer_bindings(
    sets: Seq<AttributeSet>,
    buffers: Arena<super::buffer::Native>,
) -> Trace
    decreases sets.len(),
{
    if sets.len() == 0 {
        Trace::nothing()
    } else {
        buffer_bindings(sets.drop_last(), buffers).and_then(
            buffer_binding(sets.last(), sets.len() - 1, buffers),
        )
    }
}

/// What creating the layout `id` asks for: it is made current, its
/// attributes are described, its buffers are bound, and it is deleted again
/// where any of that fails.
pub open spec fn creation(
    id: u32,
    sets: Seq<AttributeSet>,
    buffers: Arena<super::buffer::Native>,
) -> Trace {
    Trace::done(seq![Command::BindVertexArray { array: id }]).and_then(
        attribute_sets(sets),
    ).and_then(buffer_bindings(sets, buffers)).or_else(
        seq![Command::DeleteVertexArray { array: id }],
    )
}

/// The sets that a slice of attribute sets holds.
pub open spec fn sets_of(attributes: Seq<BufferAttributes>) -> Seq<AttributeSet> {
    Seq::new(attributes.len(), |i: int| attributes[i]@)
}

impl crate::vertex_layout::Native for Native {

}

impl Native {
    pub closed spec fn id(&self) -> u32 {
        self.id
    }

    /// The name of the layout in the native API.
    pub fn native_id(&self) -> (id: u32)
        ensures
            id == self.id(),
    {
        self.id
    }

    /// Takes the layout that the native API has made under the name `id`,
    /// describes the attributes to it and binds the buffers.
    pub fn new(
        id: u32,
        layout: &VertexLayout,
        buffers: &GenVec<handle::Buffer, super::buffer::Native>,
        commands: &mut Vec<Command>,
    ) -> (made: Result<Self, Error>)
        ensures
            creation(id, layout@, buffers@).matches(old(commands)@, final(commands)@, made),
            made matches Ok(native) ==> native.id() == id,
    {
        let mut native = Self { id };
        native.bind(commands);
        let ghost bound = Trace::done(seq![Command::BindVertexArray { array: id }]);
        let ghost described = attribute_sets(layout@);
        let ghost tied = buffer_bindings(layout@, buffers@);
        proof {
            assert(sets_of(layout.attributes@) =~= layout@);
            assert(commands@ =~= old(commands)@ + bound.commands);
        }
        match Self::set_attributes(layout.attributes.as_slice(), commands) {
            Ok(()) => {},
            Err(error) => {
                commands.push(Command::DeleteVertexArray { array: id });
                assert(commands@ =~= old(commands)@ + creation(id, layout@, buffers@).commands);
                return Err(error);
            },
        }
        assert(commands@ =~= old(commands)@ + bound.and_then(described).commands);
        match Self::set_buffers(layout.attributes.as_slice(), buffers, commands) {
            Ok(()) => {},
            Err(error) => {
                commands.push(Command::DeleteVertexArray { array: id });
                assert(commands@ =~= old(commands)@ + creation(id, layout@, buffers@).commands);
                return Err(error);
            },
        }
        assert(commands@ =~= old(commands)@ + creation(id, layout@, buffers@).commands);
        Ok(native)
    }

    /// Makes the layout current.
    pub fn bind(&mut self, commands: &mut Vec<Command>)
        ensures
            *final(self) == *old(self),
            final(commands)@ == old(commands)@.push(
                Command::BindVertexArray { array: old(self).id() },
            ),
    {
        commands.push(Command::BindVertexArray { array: self.id });
    }

    /// Describes the attributes of the sets to the layout that is current.
    pub fn set_attributes(attributes: &[BufferAttributes], commands: &mut Vec<Command>) -> (done:
        Result<(), Error>)
        ensures
            attribute_sets(sets_of(attributes@)).matches(old(commands)@, final(commands)@, done),
    {
        let ghost sets = sets_of(attributes@);
        let mut index: usize = 0;
        proof {
            assert(commands@ =~= old(commands)@ + attribute_sets(sets.take(0)).commands);
        }
        while index < attributes.len()
            invariant
                index <= attributes@.len(),
                sets == sets_of(attributes@),
                attribute_sets(sets.take(index as int)).failure is None,
                commands@ == old(commands)@ + attribute_sets(sets.take(index as int)).commands,
            decreases attributes@.len() - index,
        {
            let set = &attributes[index];
            let ghost before = attribute_sets(sets.take(index as int));
            let mut at: usize = 0;
            proof {
                assert(sets.take(index + 1).drop_last() =~= sets.take(index as int));
                assert(sets.take(index + 1).last().attributes == set.attributes@);
                assert(commands@ =~= old(commands)@ + before.and_then(
                    attribute_set(set.attributes@.take(0), index as int),
                ).commands);
            }
            while at < set.attributes.len()
                invariant
                    at <= set.attributes@.len(),
                    index < attributes@.len(),
                    sets == sets_of(attributes@),
                    *set == attributes@[index as int],
                    before == attribute_sets(sets.take(index as int)),
                    before.failure is None,
                    attribute_set(set.attributes@.take(at as int), index as int).failure is None,
                    commands@ == old(commands)@ + before.and_then(
                        attribute_set(set.attributes@.take(at as int), index as int),
                    ).commands,
                decreases set.attributes@.len() - at,
            {
                let described = &set.attributes[at];
                let ghost earlier = attribute_set(set.attributes@.take(at as int), index as int);
                let ghost whole = attribute_sets(sets);
                proof {
                    assert(set.attributes@.take(at + 1).drop_last() =~= set.attributes@.take(
                        at as int,
                    ));
                    assert(set.attributes@.take(at + 1).last() == *described);
                    if attribute(*described, index as int).failure is Some {
                        lemma_attribute_set_stops(set.attributes@, at + 1, index as int);
                        assert(sets.take(index + 1).drop_last() =~= sets.take(index as int));
                        lemma_attribute_sets_stop(sets, index + 1);
                        assert(commands@ =~= old(commands)@ + whole.commands);
                    }
                }
                let local_offset = to_u32(
                    described.local_offset,
                    "local attribute offset to GLuint",
                )?;
                let binding = to_u32(index, "attribute index to GLuint")?;
                commands.push(
                    Command::EnableVertexAttribArray { index: described.location as u32 },
                );
                commands.push(
                    Command::VertexAttribFormat {
                        index: described.location as u32,
                        size: described.components.count() as i32,
                        kind: u32::from(described.kind),
                        normalized: described.normalized,
                        relative_offset: local_offset,
                    },
                );
                commands.push(
                    Command::VertexAttribBinding { index: described.location as u32, binding },
                );
                proof {
                    assert(commands@ =~= old(commands)@ + before.and_then(
                        attribute_set(set.attributes@.take(at + 1), index as int),
                    ).commands);
                }
                at = at + 1;
            }
            proof {
                assert(set.attributes@.take(at as int) =~= set.attributes@);
            }
            index = index + 1;
        }
        proof {
            assert(sets.take(index as int) =~= sets);
        }
        Ok(())
    }

    /// Binds the buffers of the sets to the layout that is current.
    pub fn set_buffers(
        attributes: &[BufferAttributes],
        buffers: &GenVec<handle::Buffer, super::buffer::Native>,
        commands: &mut Vec<Command>,
    ) -> (done: Result<(), Error>)
        ensures
            buffer_bindings(sets_of(attributes@), buffers@).matches(
                old(commands)@,
                final(commands)@,
                done,
            ),
    {
        let ghost sets = sets_of(attributes@);
        let mut location: usize = 0;
        proof {
            assert(commands@ =~= old(commands)@ + buffer_bindings(
                sets.take(0),
                buffers@,
            ).commands);
        }
        while location < attributes.len()
            invariant
                location <= attributes@.len(),
                sets == sets_of(attributes@),
                buffer_bindings(sets.take(location as int), buffers@).failure is None,
                commands@ == old(commands)@ + buffer_bindings(
                    sets.take(location as int),
                    buffers@,
                ).commands,
            decreases attributes@.len() - location,
        {
            let set = &attributes[location];
            let ghost whole = buffer_bindings(sets, buffers@);
            proof {
                assert(sets.take(location + 1).drop_last() =~= sets.take(location as int));
                assert(sets.take(location + 1).last() == set@);
                if buffer_binding(set@, location as int, buffers@).failure is Some {
                    lemma_buffer_bindings_stop(sets, buffers@, location + 1);
                    assert(commands@ =~= old(commands)@ + whole.commands);
                }
            }
            if let Some(handle) = set.buffer {
                let buffer = match buffers.get(handle) {
                    Some(buffer) => buffer,
                    None => {
                        return Err(Error::ResourceNotFound);
                    },
                };
                let binding = to_u32(location, "buffer location wraps")?;
                let offset = to_isize(set.offset, "buffer offset wraps")?;
                let stride = match set.checked_stride() {
                    Some(stride) => to_i32(stride, "buffer stride wraps")?,
                    None => {
                        return Err(Error::ConversionFailed("buffer stride wraps"));
                    },
                };
                commands.push(
                    Command::BindVertexBuffer {
                        binding,
                        buffer: buffer.native_id(),
                        offset,
                        stride,
                    },
                );
            }
            proof {
                assert(commands@ =~= old(commands)@ + buffer_bindings(
                    sets.take(location + 1),
                    buffers@,
                ).commands);
            }
            location = location + 1;
        }
        proof {
            assert(sets.take(location as int) =~= sets);
        }
        Ok(())
    }

    /// What releasing the layout asks for.
    pub open spec fn release(&self) -> Command {
        Command::DeleteVertexArray { array: self.id() }
    }
}

/// Once an attribute of a set has failed, the attributes after it are not
/// described.
pub proof fn lemma_attribute_set_stops(attributes: Seq<VertexAttribute>, upto: int, index: int)
    requires
        0 <= upto <= attributes.len(),
        attribute_set(attributes.take(upto), index).failure is Some,
    ensures
        attribute_set(attributes, index) == attribute_set(attributes.take(upto), index),
    decreases attributes.len() - upto,
{
    if upto < attributes.len() {
        assert(attributes.take(upto + 1).drop_last() =~= attributes.take(upto));
        lemma_attribute_set_stops(attributes, upto + 1, index);
    } else {
        assert(attributes.take(upto) =~= attributes);
    }
}

/// Once an attribute of a set has failed, the sets after it are not
/// described.
pub proof fn lemma_attribute_sets_stop(sets: Seq<AttributeSet>, upto: int)
    requires
        0 <= upto <= sets.len(),
        attribute_sets(sets.take(upto)).failure is Some,
    ensures
        attribute_sets(sets) == attribute_sets(sets.take(upto)),
    decreases sets.len() - upto,
{
    if upto < sets.len() {
        assert(sets.take(upto + 1).drop_last() =~= sets.take(upto));
        lemma_attribute_sets_stop(sets, upto + 1);
    } else {
        assert(sets.take(upto) =~= sets);
    }
}

/// Once the buffer of a set has failed to bind, the buffers of the sets
/// after it are not bound.
pub proof fn lemma_buffer_bindings_stop(
    sets: Seq<AttributeSet>,
    buffers: Arena<super::buffer::Native>,
    upto: int,
)
    requires
        0 <= upto <= sets.len(),
        buffer_bindings(sets.take(upto), buffers).failure is Some,
    ensures
        buffer_bindings(sets, buffers) == buffer_bindings(sets.take(upto), buffers),
    decreases sets.len() - upto,
{
    if upto < sets.len() {
        assert(sets.take(upto + 1).drop_last() =~= sets.take(upto));
        lemma_buffer_bindings_stop(sets, buffers, upto + 1);
    } else {
        assert(sets.take(upto) =~= sets);
    }
}

} // verus!
