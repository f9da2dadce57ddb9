//! Buffers as the native API holds them.

use crate::buffer::{Access, Buffer, FlatData, Kind, Usage};
use crate::error::{Error, Failure};
use crate::native::{
    Command, Trace, ARRAY_BUFFER, DYNAMIC_COPY, DYNAMIC_DRAW, DYNAMIC_READ, STATIC_COPY,
    STATIC_DRAW, STATIC_READ, STREAM_COPY, STREAM_DRAW, STREAM_READ,
};
use vstd::prelude::*;
use vstd::std_specs::convert::FromSpecImpl;

verus! {

/// The target that the native API binds a buffer of the kind to.
pub open spec fn target_of(kind: Kind) -> u32 {
    match kind {
        Kind::Vertex => ARRAY_BUFFER,
    }
}

/// The hint that the native API takes for how often the data is written and
/// what it is used for.
pub open spec fn hint_of(access: Access, usage: Usage) -> u32 {
    match (access, usage) {
        (Access::Once, Usage::Write) => STATIC_DRAW,
        (Access::Frequent, Usage::Write) => DYNAMIC_DRAW,
        (Access::Always, Usage::Write) => STREAM_DRAW,
        (Access::Once, Usage::Read) => STATIC_READ,
        (Access::Frequent, Usage::Read) => DYNAMIC_READ,
        (Access::Always, Usage::Read) => STREAM_READ,
        (Access::Once, Usage::Copy) => STATIC_COPY,
        (Access::Frequent, Usage::Copy) => DYNAMIC_COPY,
        (Access::Always, Usage::Copy) => STREAM_COPY,
    }
}

impl From<Kind> for u32 {
    fn from(value: Kind) -> (target: u32) {
        match value {
            Kind::Vertex => ARRAY_BUFFER,
        }
    }
}

impl FromSpecImpl<Kind> for u32 {
    open spec fn obeys_from_spec() -> bool {
        true
    }

    open spec fn from_spec(value: Kind) -> u32 {
        target_of(value)
    }
}

/// The kind of buffer that the native API binds to the target.
pub fn kind_of(target: u32) -> (kind: Result<Kind, Error>)
    ensures
        target == ARRAY_BUFFER ==> kind == Ok::<Kind, Error>(Kind::Vertex),
        target != ARRAY_BUFFER ==> (kind matches Err(error) && error@
            == Failure::ConversionFailed("glenum to bufferkind"@)),
{
    if target == ARRAY_BUFFER {
        Ok(Kind::Vertex)
    } else {
        Err(Error::ConversionFailed("glenum to bufferkind"))
    }
}

/// How often the data of a buffer is written, and what it is used for.
#[derive(Copy, Clone)]
pub struct AccessUsage(pub Access, pub Usage);

impl From<AccessUsage> for u32 {
    fn from(value: AccessUsage) -> (hint: u32) {
        match (value.0, value.1) {
            (Access::Once, Usage::Write) => STATIC_DRAW,
            (Access::Frequent, Usage::Write) => DYNAMIC_DRAW,
            (Access::Always, Usage::Write) => STREAM_DRAW,
            (Access::Once, Usage::Read) => STATIC_READ,
            (Access::Frequent, Usage::Read) => DYNAMIC_READ,
            (Access::Always, Usage::Read) => STREAM_READ,
            (Access::Once, Usage::Copy) => STATIC_COPY,
            (Access::Frequent, Usage::Copy) => DYNAMIC_COPY,
            (Access::Always, Usage::Copy) => STREAM_COPY,
        }
    }
}

impl FromSpecImpl<AccessUsage> for u32 {
    open spec fn obeys_from_spec() -> bool {
        true
    }

    open spec fn from_spec(value: AccessUsage) -> u32 {
        hint_of(value.0, value.1)
    }
}

/// A buffer of the native API: its name there, the target it binds to, and
/// the hint it is filled with.
#[derive(Debug)]
pub struct Native {
    id: u32,
    kind: u32,
    usage: u32,
}

/// The bytes that `len` items of `size` bytes take.
pub open spec fn byte_len(len: nat, size: nat) -> nat {
    len * size
}

/// What uploading `bytes` bytes to the buffer `id` asks for: the buffer is
/// bound and then filled, unless the number of bytes does not fit the native
/// call.
pub open spec fn upload(id: u32, kind: u32, usage: u32, bytes: nat) -> Trace {
    if bytes <= i32::MAX {
        Trace::done(
            seq![
                Command::BindBuffer { target: kind, buffer: id },
                Command::BufferData { target: kind, size: bytes as i32, usage },
            ],
        )
    } else {
        Trace::unfit("buffer length into i32"@)
    }
}

impl Native {
    pub closed spec fn id(&self) -> u32 {
        self.id
    }

    pub closed spec fn kind(&self) -> u32 {
        self.kind
    }

    pub closed spec fn usage(&self) -> u32 {
        self.usage
    }

    /// The name of the buffer in the native API.
    pub fn native_id(&self) -> (id: u32)
        ensures
            id == self.id(),
    {
        self.id
    }

    /// The target that the buffer binds to.
    pub fn native_kind(&self) -> (kind: u32)
        ensures
            kind == self.kind(),
    {
        self.kind
    }

    /// What uploading `bytes` bytes asks for.
    pub open spec fn upload(&self, bytes: nat) -> Trace {
        upload(self.id(), self.kind(), self.usage(), bytes)
    }

    /// What creating the buffer asks for: its data is uploaded, if it has
    /// any, and the buffer is deleted again where that fails.
    pub open spec fn creation<T: FlatData>(id: u32, buffer: &Buffer<T>) -> Trace {
        if buffer.data is Some {
            upload(
                id,
                target_of(buffer.kind),
                hint_of(buffer.access, buffer.usage),
                buffer.byte_len(),
            ).or_else(seq![Command::DeleteBuffer { buffer: id }])
        } else {
            Trace::nothing()
        }
    }

    /// Takes the buffer that the native API has made under the name `id`,
    /// and uploads the data of the description, if it has any.
    pub fn new<T: FlatData>(id: u32, buffer: &Buffer<T>, commands: &mut Vec<Command>) -> (made:
        Result<Self, Error>)
        ensures
            Self::creation(id, buffer).matches(old(commands)@, final(commands)@, made),
            made matches Ok(native) ==> native.id() == id && native.kind() == target_of(
                buffer.kind,
            ) && native.usage() == hint_of(buffer.access, buffer.usage),
    {
        let mut native = Self {
            id,
            kind: u32::from(buffer.kind),
            usage: u32::from(AccessUsage(buffer.access, buffer.usage)),
        };
        if let Some(data) = buffer.data {
            match native.set_data(data, commands) {
                Ok(()) => {},
                Err(error) => {
                    commands.push(Command::DeleteBuffer { buffer: id });
                    proof {
                        let trace = Self::creation(id, buffer);
                        assert(commands@ =~= old(commands)@ + trace.commands);
                    }
                    return Err(error);
                },
            }
        } else {
            assert(commands@ =~= old(commands)@ + Seq::<Command>::empty());
        }
        Ok(native)
    }

    /// Sets the data of the buffer. Nothing is asked of the native API where
    /// the length of the data in bytes does not fit its call.
    pub fn set_data<T: FlatData>(&mut self, data: &[T], commands: &mut Vec<Command>) -> (done:
        Result<(), Error>)
        ensures
            *final(self) == *old(self),
            old(self).upload(byte_len(data@.len(), vstd::layout::size_of::<T>())).matches(
                old(commands)@,
                final(commands)@,
                done,
            ),
    {
        let ghost bytes = byte_len(data@.len(), vstd::layout::size_of::<T>());
        proof {
            assert(commands@ + Seq::<Command>::empty() =~= commands@);
        }
        let upload = plan_upload(self, data)?;
        commands.push(upload.0);
        commands.push(upload.1);
        assert(commands@ =~= old(commands)@ + self.upload(bytes).commands);
        Ok(())
    }

    /// What releasing the buffer asks for.
    pub open spec fn release(&self) -> Command {
        Command::DeleteBuffer { buffer: self.id() }
    }
}

/// The two commands that upload the data to the buffer, or the error where
/// the length of the data in bytes does not fit the native call.
pub fn plan_upload<T: FlatData>(native: &Native, data: &[T]) -> (planned: Result<
    (Command, Command),
    Error,
>)
    ensures
        match planned {
            Ok(pair) => native.upload(
                byte_len(data@.len(), vstd::layout::size_of::<T>()),
            ).failure is None && native.upload(
                byte_len(data@.len(), vstd::layout::size_of::<T>()),
            ).commands == seq![pair.0, pair.1],
            Err(error) => native.upload(
                byte_len(data@.len(), vstd::layout::size_of::<T>()),
            ).failure == Some(error@),
        },
{
    let size = match data.len().checked_mul(core::mem::size_of::<T>()) {
        Some(size) => {
            if size <= i32::MAX as usize {
                size as i32
            } else {
                return Err(Error::ConversionFailed("buffer length into i32"));
            }
        },
        None => {
            return Err(Error::ConversionFailed("buffer length into i32"));
        },
    };
    Ok(
        (
            Command::BindBuffer { target: native.kind, buffer: native.id },
            Command::BufferData { target: native.kind, size, usage: native.usage },
        ),
    )
}

} // verus!
