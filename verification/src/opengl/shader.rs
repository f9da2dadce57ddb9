//! Shader programs as the native API holds them.

use super::report::{BuildReport, BUILT};
use super::stage;
use crate::error::{Error, Failure};
use crate::gen_vec::{Arena, GenVec};
use crate::handle;
use crate::native::Command;
use crate::StageHandle;
use vstd::prelude::*;

verus! {

/// A shader program of the native API, by its name there.
#[derive(Debug)]
pub struct Native {
    id: u32,
}

/// A shader program that has been handed to the linker of the native API:
/// its name, the stages that were compiled for it alone, and the names of
/// all stages that are attached to it, in the order of their attachment.
#[derive(Debug)]
pub struct Linking {
    id: u32,
    temporary: Vec<stage::Native>,
    attached: Vec<u32>,
}

/// The names of the stages.
pub open spec fn names(stages: Seq<stage::Native>) -> Seq<u32> {
    Seq::new(stages.len(), |i: int| stages[i].id())
}

/// Every handle refers to a stage of the pool.
pub open spec fn all_live(handles: Seq<StageHandle>, pool: Arena<stage::Native>) -> bool {
    forall|i: int| 0 <= i < handles.len() ==> pool.live((#[trigger] handles[i])@)
}

/// The names of the stages that the handles refer to.
pub open spec fn resolved(handles: Seq<StageHandle>, pool: Arena<stage::Native>) -> Seq<u32> {
    Seq::new(handles.len(), |i: int| pool.get(handles[i]@).unwrap().id())
}

pub open spec fn attachments(program: u32, stages: Seq<u32>) -> Seq<Command> {
    Seq::new(stages.len(), |i: int| Command::AttachShader { program, shader: stages[i] })
}

pub open spec fn detachments(program: u32, stages: Seq<u32>) -> Seq<Command> {
    Seq::new(stages.len(), |i: int| Command::DetachShader { program, shader: stages[i] })
}

pub open spec fn releases(stages: Seq<u32>) -> Seq<Command> {
    Seq::new(stages.len(), |i: int| Command::DeleteShader { shader: stages[i] })
}

/// What giving up the program `id` asks for: the stages that were compiled
/// for it alone are deleted, then the program.
pub open spec fn abandonment(id: u32, temporary: Seq<u32>) -> Seq<Command> {
    releases(temporary).push(Command::DeleteProgram { program: id })
}

/// How a linking ended that the native API reports in this way, with
/// `reason` for the text that its linker left.
pub open spec fn verdict(status: i32, log_length: i32, reason: Seq<char>) -> Option<Failure> {
    if status == BUILT {
        None
    } else if log_length < 0 {
        Some(Failure::ConversionFailed("failed to convert program error length"@))
    } else {
        Some(Failure::FailedToLinkShader(reason))
    }
}

/// How a linking ended that the native API reports in this way, where
/// `reason` is the text that its linker left.
pub fn judge(status: i32, log_length: i32, reason: String) -> (ended: Result<(), Error>)
    ensures
        match ended {
            Ok(_) => verdict(status, log_length, reason@) is None,
            Err(error) => verdict(status, log_length, reason@) == Some(error@),
        },
{
    if status == BUILT {
        Ok(())
    } else if log_length < 0 {
        Err(Error::ConversionFailed("failed to convert program error length"))
    } else {
        Err(Error::FailedToLinkShader(reason))
    }
}

/// Appends the deletion of each stage, in order.
fn release_all(stages: &Vec<stage::Native>, commands: &mut Vec<Command>)
    ensures
        final(commands)@ == old(commands)@ + releases(names(stages@)),
{
    let mut at: usize = 0;
    assert(commands@ =~= old(commands)@ + releases(names(stages@)).take(0));
    while at < stages.len()
        invariant
            at <= stages@.len(),
            commands@ == old(commands)@ + releases(names(stages@)).take(at as int),
        decreases stages@.len() - at,
    {
        commands.push(Command::DeleteShader { shader: stages[at].native_id() });
        assert(commands@ =~= old(commands)@ + releases(names(stages@)).take(at + 1));
        at = at + 1;
    }
    assert(releases(names(stages@)).take(at as int) =~= releases(names(stages@)));
}

impl Linking {
    pub closed spec fn id(&self) -> u32 {
        self.id
    }

    /// The names of the stages that were compiled for the program alone.
    pub closed spec fn temporary(&self) -> Seq<u32> {
        names(self.temporary@)
    }

    /// The names of the stages that are attached to the program.
    pub closed spec fn attached(&self) -> Seq<u32> {
        self.attached@
    }

    /// The name of the program in the native API.
    pub fn native_id(&self) -> (id: u32)
        ensures
            id == self.id(),
    {
        self.id
    }

    /// Takes the report of the linking. Where it succeeded the stages are
    /// detached and the program is handed out; where it failed the program
    /// is deleted. Either way the stages that were compiled for the program
    /// alone are deleted.
    pub fn finish(self, report: &BuildReport, commands: &mut Vec<Command>) -> (linked: Result<
        Native,
        Error,
    >)
        ensures
            match linked {
                Ok(native) => native.id() == self.id() && verdict(
                    report.status,
                    report.log_length,
                    report.reason(),
                ) is None && final(commands)@ == old(commands)@ + detachments(
                    self.id(),
                    self.attached(),
                ) + releases(self.temporary()),
                Err(error) => verdict(report.status, report.log_length, report.reason()) == Some(
                    error@,
                ) && final(commands)@ == old(commands)@ + abandonment(
                    self.id(),
                    self.temporary(),
                ),
            },
    {
        match judge(report.status, report.log_length, report.read_log()) {
            Ok(()) => {
                let mut at: usize = 0;
                let ghost all = detachments(self.id, self.attached@);
                assert(commands@ =~= old(commands)@ + all.take(0));
                while at < self.attached.len()
                    invariant
                        at <= self.attached@.len(),
                        all == detachments(self.id, self.attached@),
                        commands@ == old(commands)@ + all.take(at as int),
                    decreases self.attached@.len() - at,
                {
                    commands.push(
                        Command::DetachShader { program: self.id, shader: self.attached[at] },
                    );
                    assert(commands@ =~= old(commands)@ + all.take(at + 1));
                    at = at + 1;
                }
                assert(all.take(at as int) =~= all);
                release_all(&self.temporary, commands);
                Ok(Native { id: self.id })
            },
            Err(error) => {
                release_all(&self.temporary, commands);
                commands.push(Command::DeleteProgram { program: self.id });
                assert(commands@ =~= old(commands)@ + abandonment(self.id(), self.temporary()));
                Err(error)
            },
        }
    }
}

impl crate::shader::Native for Native {

}

impl Native {
    pub closed spec fn id(&self) -> u32 {
        self.id
    }

    /// The name of the program in the native API.
    pub fn native_id(&self) -> (id: u32)
        ensures
            id == self.id(),
    {
        self.id
    }

    /// Gives up the program that the native API has made under the name
    /// `id`, because a stage that was to be compiled for it has failed.
    pub fn abandon(id: u32, temporary: Vec<stage::Native>, commands: &mut Vec<Command>)
        ensures
            final(commands)@ == old(commands)@ + abandonment(id, names(temporary@)),
    {
        release_all(&temporary, commands);
        commands.push(Command::DeleteProgram { program: id });
        assert(commands@ =~= old(commands)@ + abandonment(id, names(temporary@)));
    }

    /// Takes the program that the native API has made under the name `id`,
    /// attaches the stages that were compiled for it alone and then those
    /// that the handles refer to, and has it linked. How the linking ended is
    /// not known yet: [`Linking::finish`] takes the report of it.
    ///
    /// Where a handle refers to no stage of the pool nothing is attached:
    /// the program is given up.
    pub fn new(
        id: u32,
        handles: &[StageHandle],
        temporary: Vec<stage::Native>,
        stages: &GenVec<handle::Stage, stage::Native>,
        commands: &mut Vec<Command>,
    ) -> (made: Result<Linking, Error>)
        ensures
            match made {
                Ok(linking) => all_live(handles@, stages@) && linking.id() == id
                    && linking.temporary() == names(temporary@) && linking.attached() == names(
                    temporary@,
                ) + resolved(handles@, stages@) && final(commands)@ == old(commands)@
                    + attachments(id, linking.attached()).push(
                    Command::LinkProgram { program: id },
                ),
                Err(error) => !all_live(handles@, stages@) && error@ == Failure::ResourceNotFound
                    && final(commands)@ == old(commands)@ + abandonment(id, names(temporary@)),
            },
    {
        let mut attached: Vec<u32> = Vec::new();
        let mut at: usize = 0;
        while at < temporary.len()
            invariant
                at <= temporary@.len(),
                attached@ == names(temporary@).take(at as int),
            decreases temporary@.len() - at,
        {
            attached.push(temporary[at].native_id());
            assert(attached@ =~= names(temporary@).take(at + 1));
            at = at + 1;
        }
        assert(names(temporary@).take(at as int) =~= names(temporary@));
        let mut next: usize = 0;
        assert(attached@ =~= names(temporary@) + resolved(handles@, stages@).take(0));
        while next < handles.len()
            invariant
                next <= handles@.len(),
                *commands == *old(commands),
                forall|i: int| 0 <= i < next ==> stages@.live((#[trigger] handles@[i])@),
                attached@ == names(temporary@) + resolved(handles@, stages@).take(next as int),
            decreases handles@.len() - next,
        {
            match stages.get(handles[next]) {
                Some(stage) => {
                    attached.push(stage.native_id());
                    assert(attached@ =~= names(temporary@) + resolved(handles@, stages@).take(
                        next + 1,
                    ));
                },
                None => {
                    Self::abandon(id, temporary, commands);
                    return Err(Error::ResourceNotFound);
                },
            }
            next = next + 1;
        }
        assert(resolved(handles@, stages@).take(next as int) =~= resolved(handles@, stages@));
        let mut index: usize = 0;
        let ghost all = attachments(id, attached@);
        assert(commands@ =~= old(commands)@ + all.take(0));
        while index < attached.len()
            invariant
                index <= attached@.len(),
                all == attachments(id, attached@),
                commands@ == old(commands)@ + all.take(index as int),
            decreases attached@.len() - index,
        {
            commands.push(Command::AttachShader { program: id, shader: attached[index] });
            assert(commands@ =~= old(commands)@ + all.take(index + 1));
            index = index + 1;
        }
        assert(all.take(index as int) =~= all);
        commands.push(Command::LinkProgram { program: id });
        assert(commands@ =~= old(commands)@ + all.push(Command::LinkProgram { program: id }));
        Ok(Linking { id, temporary, attached })
    }

    /// Makes the program current.
    pub fn bind(&mut self, commands: &mut Vec<Command>)
        ensures
            *final(self) == *old(self),
            final(commands)@ == old(commands)@.push(Command::UseProgram { program: old(self).id() }),
    {
        commands.push(Command::UseProgram { program: self.id });
    }

    /// What releasing the program asks for.
    pub open spec fn release(&self) -> Command {
        Command::DeleteProgram { program: self.id() }
    }
}

} // verus!
