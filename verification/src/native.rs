//! The native graphics API as the layer sees it: the numbers it names things
//! by, and the calls that the layer asks for.
//!
//! The layer makes no native call itself. Every function that has one to make
//! appends a [`Command`] to a queue, with the arguments already converted to
//! the widths of the native call. Whoever owns the native context performs
//! the commands in order.

use crate::error::{Error, Failure};
use vstd::prelude::*;

verus! {

pub const ARRAY_BUFFER: u32 = 0x8892;

pub const STREAM_DRAW: u32 = 0x88E0;

pub const STREAM_READ: u32 = 0x88E1;

pub const STREAM_COPY: u32 = 0x88E2;

pub const STATIC_DRAW: u32 = 0x88E4;

pub const STATIC_READ: u32 = 0x88E5;

pub const STATIC_COPY: u32 = 0x88E6;

pub const DYNAMIC_DRAW: u32 = 0x88E8;

pub const DYNAMIC_READ: u32 = 0x88E9;

pub const DYNAMIC_COPY: u32 = 0x88EA;

pub const BYTE: u32 = 0x1400;

pub const UNSIGNED_BYTE: u32 = 0x1401;

pub const FLOAT: u32 = 0x1406;

pub const RGB: u32 = 0x1907;

pub const RGBA: u32 = 0x1908;

pub const TRIANGLES: u32 = 0x0004;

pub const TRIANGLE_STRIP: u32 = 0x0005;

pub const FRAGMENT_SHADER: u32 = 0x8B30;

pub const VERTEX_SHADER: u32 = 0x8B31;

pub const COLOR_BUFFER_BIT: u32 = 0x4000;

pub const SCISSOR_TEST: u32 = 0x0C11;

pub const DEBUG_OUTPUT: u32 = 0x92E0;

pub const DEBUG_SOURCE_API: u32 = 0x8246;

pub const DEBUG_SOURCE_WINDOW_SYSTEM: u32 = 0x8247;

pub const DEBUG_SOURCE_SHADER_COMPILER: u32 = 0x8248;

pub const DEBUG_SOURCE_THIRD_PARTY: u32 = 0x8249;

pub const DEBUG_SOURCE_APPLICATION: u32 = 0x824A;

pub const DEBUG_SOURCE_OTHER: u32 = 0x824B;

pub const DEBUG_TYPE_ERROR: u32 = 0x824C;

pub const DEBUG_TYPE_DEPRECATED_BEHAVIOR: u32 = 0x824D;

pub const DEBUG_TYPE_UNDEFINED_BEHAVIOR: u32 = 0x824E;

pub const DEBUG_TYPE_PORTABILITY: u32 = 0x824F;

pub const DEBUG_TYPE_PERFORMANCE: u32 = 0x8250;

pub const DEBUG_SEVERITY_HIGH: u32 = 0x9146;

pub const DEBUG_SEVERITY_MEDIUM: u32 = 0x9147;

pub const DEBUG_SEVERITY_LOW: u32 = 0x9148;

pub const DEBUG_SEVERITY_NOTIFICATION: u32 = 0x826B;

/// One call of the native API, with its arguments.
///
/// The bulk data of a call (the bytes of a buffer, the text of a shader) is
/// not part of the command: whoever performs it takes the data from the
/// description that the command was made for.
#[derive(Copy, Clone, Debug, PartialEq, Eq, Structural)]
pub enum Command {
    Enable { capability: u32 },
    /// Installs the callback that feeds the diagnostics log.
    DebugMessageCallback,
    SwapBuffers,
    Viewport { x: i32, y: i32, width: i32, height: i32 },
    Scissor { x: i32, y: i32, width: i32, height: i32 },
    /// The channels are bit patterns of single precision numbers.
    ClearColor { red: u32, green: u32, blue: u32, alpha: u32 },
    Clear { mask: u32 },
    BindBuffer { target: u32, buffer: u32 },
    /// Uploads `size` bytes of the data of the buffer that is bound.
    BufferData { target: u32, size: i32, usage: u32 },
    DeleteBuffer { buffer: u32 },
    BindVertexArray { array: u32 },
    EnableVertexAttribArray { index: u32 },
    VertexAttribFormat { index: u32, size: i32, kind: u32, normalized: bool, relative_offset: u32 },
    VertexAttribBinding { index: u32, binding: u32 },
    BindVertexBuffer { binding: u32, buffer: u32, offset: isize, stride: i32 },
    DeleteVertexArray { array: u32 },
    /// Hands the `count` source texts of the stage to the shader.
    ShaderSource { shader: u32, count: i32 },
    CompileShader { shader: u32 },
    DeleteShader { shader: u32 },
    AttachShader { program: u32, shader: u32 },
    LinkProgram { program: u32 },
    DetachShader { program: u32, shader: u32 },
    UseProgram { program: u32 },
    DeleteProgram { program: u32 },
    DrawArrays { mode: u32, first: i32, count: i32 },
}

impl Command {
    /// The command submits a draw.
    pub open spec fn is_draw(self) -> bool {
        self is DrawArrays
    }

    /// The command makes a layout, a program or a render target current.
    pub open spec fn is_bind(self) -> bool {
        self is BindVertexArray || self is UseProgram || self is Viewport || self is Scissor
    }
}

/// The mode that a draw call names a primitive by.
pub open spec fn primitive_mode(primitive: crate::Primitive) -> u32 {
    match primitive {
        crate::Primitive::Triangles => TRIANGLES,
        crate::Primitive::TriangleStrip => TRIANGLE_STRIP,
    }
}

impl From<crate::Primitive> for u32 {
    fn from(value: crate::Primitive) -> (mode: u32) {
        match value {
            crate::Primitive::Triangles => TRIANGLES,
            crate::Primitive::TriangleStrip => TRIANGLE_STRIP,
        }
    }
}

impl vstd::std_specs::convert::FromSpecImpl<crate::Primitive> for u32 {
    open spec fn obeys_from_spec() -> bool {
        true
    }

    open spec fn from_spec(value: crate::Primitive) -> u32 {
        primitive_mode(value)
    }
}

/// The number as the native call takes it, or the error that names what did
/// not fit.
pub fn to_i32(value: usize, what: &'static str) -> (converted: Result<i32, Error>)
    ensures
        value <= i32::MAX ==> converted == Ok::<i32, Error>(value as i32),
        value > i32::MAX ==> (converted matches Err(error) && error@
            == Failure::ConversionFailed(what@)),
{
    if value <= i32::MAX as usize {
        Ok(value as i32)
    } else {
        Err(Error::ConversionFailed(what))
    }
}

/// The number as the native call takes it, or the error that names what did
/// not fit.
pub fn to_u32(value: usize, what: &'static str) -> (converted: Result<u32, Error>)
    ensures
        value <= u32::MAX ==> converted == Ok::<u32, Error>(value as u32),
        value > u32::MAX ==> (converted matches Err(error) && error@
            == Failure::ConversionFailed(what@)),
{
    if value <= u32::MAX as usize {
        Ok(value as u32)
    } else {
        Err(Error::ConversionFailed(what))
    }
}

/// The number as the native call takes it, or the error that names what did
/// not fit.
pub fn to_isize(value: usize, what: &'static str) -> (converted: Result<isize, Error>)
    ensures
        value <= isize::MAX ==> converted == Ok::<isize, Error>(value as isize),
        value > isize::MAX ==> (converted matches Err(error) && error@
            == Failure::ConversionFailed(what@)),
{
    if value <= isize::MAX as usize {
        Ok(value as isize)
    } else {
        Err(Error::ConversionFailed(what))
    }
}

/// The number as the native call takes it, or the error that names what did
/// not fit.
pub fn u32_to_i32(value: u32, what: &'static str) -> (converted: Result<i32, Error>)
    ensures
        value <= i32::MAX ==> converted == Ok::<i32, Error>(value as i32),
        value > i32::MAX ==> (converted matches Err(error) && error@
            == Failure::ConversionFailed(what@)),
{
    if value <= i32::MAX as u32 {
        Ok(value as i32)
    } else {
        Err(Error::ConversionFailed(what))
    }
}

/// What a piece of work asks of the native API, and how it ends: the
/// commands it appends to the queue, and the error that stopped it, if one
/// did.
pub struct Trace {
    pub commands: Seq<Command>,
    pub failure: Option<Failure>,
}

impl Trace {
    /// Work that asks for nothing and succeeds.
    pub open spec fn nothing() -> Trace {
        Trace { commands: Seq::empty(), failure: None }
    }

    /// Work that asks for the commands and succeeds.
    pub open spec fn done(commands: Seq<Command>) -> Trace {
        Trace { commands, failure: None }
    }

    /// Work that stops at once, having asked for nothing.
    pub open spec fn failed(failure: Failure) -> Trace {
        Trace { commands: Seq::empty(), failure: Some(failure) }
    }

    /// Work that stops because a number does not fit the native call.
    pub open spec fn unfit(what: Seq<char>) -> Trace {
        Trace::failed(Failure::ConversionFailed(what))
    }

    /// This work, and `next` after it unless this work failed.
    pub open spec fn and_then(self, next: Trace) -> Trace {
        if self.failure is Some {
            self
        } else {
            Trace { commands: self.commands + next.commands, failure: next.failure }
        }
    }

    /// This work, and the commands after it if it failed.
    pub open spec fn or_else(self, cleanup: Seq<Command>) -> Trace {
        if self.failure is Some {
            Trace { commands: self.commands + cleanup, failure: self.failure }
        } else {
            self
        }
    }

    /// The queue holds what it held and what this work asked for, and the
    /// outcome is that of this work.
    pub open spec fn matches<T>(
        self,
        before: Seq<Command>,
        after: Seq<Command>,
        outcome: Result<T, Error>,
    ) -> bool {
        &&& after == before + self.commands
        &&& match outcome {
            Ok(_) => self.failure is None,
            Err(error) => self.failure == Some(error@),
        }
    }
}

/// Doing nothing before or after a piece of work changes nothing, and three
/// pieces of work in a row can be grouped either way.
pub proof fn lemma_and_then(first: Trace, second: Trace, third: Trace)
    ensures
        Trace::nothing().and_then(first) == first,
        first.and_then(Trace::nothing()) == first,
        first.and_then(second).and_then(third) == first.and_then(second.and_then(third)),
{
    assert(Trace::nothing().and_then(first).commands =~= first.commands);
    assert(first.and_then(Trace::nothing()).commands =~= first.commands);
    assert(first.and_then(second).and_then(third).commands =~= first.and_then(
        second.and_then(third),
    ).commands);
}

} // verus!
