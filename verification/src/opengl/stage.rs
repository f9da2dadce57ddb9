//! Shader stages as the native API holds them.

use super::report::{BuildReport, BUILT};
use crate::error::{Error, Failure};
use crate::native::{to_i32, Command, Trace, FRAGMENT_SHADER, VERTEX_SHADER};
use crate::shader::{Kind, Stage};
use vstd::prelude::*;
use vstd::std_specs::convert::FromSpecImpl;
use vstd::string::StringExecFns;
use vstd::string::StringSliceAdditionalSpecFns;

verus! {

/// A shader stage of the native API: its name there, and its kind.
#[derive(Debug)]
pub struct Native {
    id: u32,
    kind: Kind,
}

/// The type that the native API names a kind of stage by.
pub open spec fn type_of(kind: Kind) -> u32 {
    match kind {
        Kind::Vertex => VERTEX_SHADER,
        Kind::Fragment => FRAGMENT_SHADER,
    }
}

impl From<Kind> for u32 {
    fn from(value: Kind) -> (kind: u32) {
        match value {
            Kind::Vertex => VERTEX_SHADER,
            Kind::Fragment => FRAGMENT_SHADER,
        }
    }
}

impl FromSpecImpl<Kind> for u32 {
    open spec fn obeys_from_spec() -> bool {
        true
    }

    open spec fn from_spec(value: Kind) -> u32 {
        type_of(value)
    }
}

/// The bytes can be handed to the native API as a text that ends at its
/// first zero: none of them is zero.
pub open spec fn terminable(bytes: Seq<u8>) -> bool {
    forall|i: int| 0 <= i < bytes.len() ==> bytes[i] != 0
}

/// Every source can be handed to the native API.
pub open spec fn all_terminable(sources: Seq<&str>) -> bool {
    forall|i: int| 0 <= i < sources.len() ==> terminable((#[trigger] sources[i]).spec_bytes())
}

/// What handing the sources to the stage `id` asks for: the sources are
/// set and compiled, unless one of them cannot be handed over or they are
/// too many to count; then the stage is deleted again.
pub open spec fn submission(id: u32, sources: Seq<&str>) -> Trace {
    if !all_terminable(sources) {
        Trace {
            commands: seq![Command::DeleteShader { shader: id }],
            failure: Some(Failure::FailedToCompileShader("source is not a valid CString"@)),
        }
    } else if sources.len() > i32::MAX {
        Trace {
            commands: seq![Command::DeleteShader { shader: id }],
            failure: Some(Failure::ConversionFailed("failed to convert len to i32"@)),
        }
    } else {
        Trace::done(
            seq![
                Command::ShaderSource { shader: id, count: sources.len() as i32 },
                Command::CompileShader { shader: id },
            ],
        )
    }
}

/// How a compilation ended that the native API reports in this way, with
/// `reason` for the text that its compiler left.
pub open spec fn verdict(status: i32, log_length: i32, reason: Seq<char>) -> Option<Failure> {
    if status == BUILT {
        None
    } else if log_length < 0 {
        Some(Failure::ConversionFailed("failed to convert stage error length"@))
    } else {
        Some(Failure::FailedToCompileShader(reason))
    }
}

/// Whether none of the bytes is zero.
pub fn is_terminable(bytes: &[u8]) -> (fine: bool)
    ensures
        fine == terminable(bytes@),
{
    let mut at: usize = 0;
    while at < bytes.len()
        invariant
            at <= bytes@.len(),
            forall|i: int| 0 <= i < at ==> bytes@[i] != 0,
        decreases bytes@.len() - at,
    {
        if bytes[at] == 0 {
            return false;
        }
        at = at + 1;
    }
    true
}

/// How a compilation ended that the native API reports in this way, where
/// `reason` is the text that its compiler left.
pub fn judge(status: i32, log_length: i32, reason: String) -> (ended: Result<(), Error>)
    ensures
        match ended {
            Ok(_) => verdict(status, log_length, reason@) is None,
            Err(error) => verdict(status, log_length, reason@) == Some(error@),
        },
{
    if status == BUILT {
        Ok(())
    } else if log_length < 0 {
        Err(Error::ConversionFailed("failed to convert stage error length"))
    } else {
        Err(Error::FailedToCompileShader(reason))
    }
}

impl Native {
    pub closed spec fn id(&self) -> u32 {
        self.id
    }

    pub closed spec fn kind(&self) -> Kind {
        self.kind
    }

    /// The name of the stage in the native API.
    pub fn native_id(&self) -> (id: u32)
        ensures
            id == self.id(),
    {
        self.id
    }

    /// The kind of the stage.
    pub fn stage_kind(&self) -> (kind: Kind)
        ensures
            kind == self.kind(),
    {
        self.kind
    }

    /// Takes the stage that the native API has made under the name `id`
    /// and has its sources compiled. How the compilation ended is not known
    /// yet: [`Native::compile`] takes the report of it.
    pub fn new(id: u32, stage: Stage, commands: &mut Vec<Command>) -> (made: Result<Self, Error>)
        ensures
            submission(id, stage.sources@).matches(old(commands)@, final(commands)@, made),
            made matches Ok(native) ==> native.id() == id && native.kind() == stage.kind,
    {
        let mut at: usize = 0;
        while at < stage.sources.len()
            invariant
                at <= stage.sources@.len(),
                *commands == *old(commands),
                forall|i: int|
                    0 <= i < at ==> terminable((#[trigger] stage.sources@[i]).spec_bytes()),
            decreases stage.sources@.len() - at,
        {
            if !is_terminable(stage.sources[at].as_bytes()) {
                commands.push(Command::DeleteShader { shader: id });
                assert(commands@ =~= old(commands)@ + submission(id, stage.sources@).commands);
                return Err(
                    Error::FailedToCompileShader(String::from_str("source is not a valid CString")),
                );
            }
            at = at + 1;
        }
        let count = match to_i32(stage.sources.len(), "failed to convert len to i32") {
            Ok(count) => count,
            Err(error) => {
                commands.push(Command::DeleteShader { shader: id });
                assert(commands@ =~= old(commands)@ + submission(id, stage.sources@).commands);
                return Err(error);
            },
        };
        commands.push(Command::ShaderSource { shader: id, count });
        commands.push(Command::CompileShader { shader: id });
        assert(commands@ =~= old(commands)@ + submission(id, stage.sources@).commands);
        Ok(Self { id, kind: stage.kind })
    }

    /// Takes the report of the compilation. The stage is handed back where
    /// the compilation succeeded, and deleted where it failed.
    pub fn compile(self, report: &BuildReport, commands: &mut Vec<Command>) -> (compiled: Result<
        Self,
        Error,
    >)
        ensures
            match compiled {
                Ok(native) => native == self && verdict(
                    report.status,
                    report.log_length,
                    report.reason(),
                ) is None && final(commands)@ == old(commands)@,
                Err(error) => verdict(report.status, report.log_length, report.reason()) == Some(
                    error@,
                ) && final(commands)@ == old(commands)@.push(self.release()),
            },
    {
        match judge(report.status, report.log_length, report.read_log()) {
            Ok(()) => Ok(self),
            Err(error) => {
                commands.push(Command::DeleteShader { shader: self.id });
                Err(error)
            },
        }
    }

    /// What releasing the stage asks for.
    pub open spec fn release(&self) -> Command {
        Command::DeleteShader { shader: self.id() }
    }
}

} // verus!
