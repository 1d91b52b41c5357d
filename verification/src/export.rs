//! The steps of an export, from the copy out of the processed texture to
//! the file on disk.
//!
//! The copy into the staging buffer and the mapping of that buffer are
//! asynchronous. The buffer is read only after the device has signalled that
//! the mapping is complete; until then the device is polled, a bounded
//! number of times. The steps themselves are carried out outside the
//! library, which is told how each one ended and says which one is next.

use vstd::prelude::*;
use crate::error::ExportError;

verus! {

/// The step to carry out next.
#[derive(Clone, Copy, Debug, PartialEq, Eq)]
pub enum ExportCall {
    /// Create the staging buffer, copy the processed texture into it, submit
    /// the copy and ask for the buffer to be mapped for reading.
    CopyAndMap,
    /// Wait for the device, then report whether the mapping is complete.
    Poll,
    /// Read the mapped buffer, make the file from it, unmap the buffer.
    ReadMapped,
    /// Write the file to its destination.
    WriteFile,
    /// No step is left: the export ended this way.
    Finish(Result<(), ExportError>),
}

/// How a step ended.
#[derive(Clone, Copy, Debug, PartialEq, Eq, Structural)]
pub enum ExportReply {
    /// From `CopyAndMap`: the copy is submitted and the mapping asked for.
    Submitted,
    /// From `Poll`: the device has not signalled yet.
    MapPending,
    /// From `Poll`: the device has signalled that the buffer is mapped.
    MapReady,
    /// From `Poll`: the device has signalled that the mapping failed.
    MapFailed,
    /// From `ReadMapped`: whether the file could be made.
    FileMade(bool),
    /// From `WriteFile`: whether the file was written.
    Written(bool),
}

/// The step that is under way.
#[derive(Clone, Copy, Debug, PartialEq, Eq, Structural)]
pub enum ExportStage {
    Copying,
    /// Waiting for the mapping, with this many polls left after the one
    /// under way.
    Mapping(u32),
    Reading,
    Writing,
    Finished,
}

/// An export in progress: the step under way and the outcome so far.
#[derive(Clone, Copy, Debug, PartialEq, Eq)]
pub struct Export {
    pub stage: ExportStage,
    pub polls: u32,
    pub outcome: Result<(), ExportError>,
}

impl ExportStage {
    /// The step that is carried out when this stage is entered.
    pub open spec fn call(self, outcome: Result<(), ExportError>) -> ExportCall {
        match self {
            ExportStage::Copying => ExportCall::CopyAndMap,
            ExportStage::Mapping(_) => ExportCall::Poll,
            ExportStage::Reading => ExportCall::ReadMapped,
            ExportStage::Writing => ExportCall::WriteFile,
            ExportStage::Finished => ExportCall::Finish(outcome),
        }
    }
}

impl Export {
    /// An export that polls the device at most `polls` times, and at least
    /// once.
    pub open spec fn initial(polls: u32) -> Export {
        Export { stage: ExportStage::Copying, polls, outcome: Ok(()) }
    }

    /// Steps that are still to be carried out at most, the one under way
    /// included.
    pub open spec fn steps_left(self) -> nat {
        match self.stage {
            ExportStage::Copying => (self.polls + 4) as nat,
            ExportStage::Mapping(polls_left) => (polls_left + 3) as nat,
            ExportStage::Reading => 2,
            ExportStage::Writing => 1,
            ExportStage::Finished => 0,
        }
    }

    /// The same export, finished with `error`.
    pub open spec fn failed(self, error: ExportError) -> Export {
        Export { stage: ExportStage::Finished, outcome: Err(error), ..self }
    }

    /// The export after `reply` to the step under way.
    ///
    /// The buffer is read after the device has signalled that it is mapped,
    /// and only then. While the device has not signalled it is polled again,
    /// until the polls run out: then, and when the device signals a failed
    /// mapping, the readback has timed out. A file that cannot be made or
    /// written, and a reply that does not belong to the step, are a failure
    /// to write.
    pub open spec fn next(self, reply: ExportReply) -> Export {
        match self.stage {
            ExportStage::Copying => match reply {
                ExportReply::Submitted => Export {
                    stage: ExportStage::Mapping(if self.polls == 0 {
                        0
                    } else {
                        (self.polls - 1) as u32
                    }),
                    ..self
                },
                _ => self.failed(ExportError::IOFailure),
            },
            ExportStage::Mapping(polls_left) => match reply {
                ExportReply::MapReady => Export { stage: ExportStage::Reading, ..self },
                ExportReply::MapPending => if polls_left > 0 {
                    Export { stage: ExportStage::Mapping((polls_left - 1) as u32), ..self }
                } else {
                    self.failed(ExportError::ReadbackTimeout)
                },
                ExportReply::MapFailed => self.failed(ExportError::ReadbackTimeout),
                _ => self.failed(ExportError::IOFailure),
            },
            ExportStage::Reading => match reply {
                ExportReply::FileMade(true) => Export { stage: ExportStage::Writing, ..self },
                _ => self.failed(ExportError::IOFailure),
            },
            ExportStage::Writing => match reply {
                ExportReply::Written(true) => Export { stage: ExportStage::Finished, ..self },
                _ => self.failed(ExportError::IOFailure),
            },
            ExportStage::Finished => self,
        }
    }

    /// The export after the replies `replies`, one after the other.
    pub open spec fn run(self, replies: Seq<ExportReply>) -> Export
        decreases replies.len(),
    {
        if replies.len() == 0 {
            self
        } else {
            self.next(replies[0]).run(replies.drop_first())
        }
    }

    /// The step to begin a new export with, and the export to report its
    /// end to. The device is polled at most `polls` times, and at least
    /// once.
    pub fn start(polls: u32) -> (begun: (Export, ExportCall))
        ensures
            begun.0 == Export::initial(polls),
            begun.1 == ExportCall::CopyAndMap,
    {
        (Export { stage: ExportStage::Copying, polls, outcome: Ok(()) }, ExportCall::CopyAndMap)
    }

    fn fail(self, error: ExportError) -> (after: Export)
        ensures
            after == self.failed(error),
    {
        Export { stage: ExportStage::Finished, polls: self.polls, outcome: Err(error) }
    }

    fn reach(self, stage: ExportStage) -> (after: Export)
        ensures
            after == (Export { stage, ..self }),
    {
        Export { stage, polls: self.polls, outcome: self.outcome }
    }

    fn call_of(self) -> (call: ExportCall)
        ensures
            call == self.stage.call(self.outcome),
    {
        match self.stage {
            ExportStage::Copying => ExportCall::CopyAndMap,
            ExportStage::Mapping(_) => ExportCall::Poll,
            ExportStage::Reading => ExportCall::ReadMapped,
            ExportStage::Writing => ExportCall::WriteFile,
            ExportStage::Finished => ExportCall::Finish(self.outcome),
        }
    }

    /// Takes in how the step under way ended and says which step is next;
    /// see [`Export::next`]. The step is the one that belongs to the stage
    /// reached.
    pub fn advance(self, reply: ExportReply) -> (after: (Export, ExportCall))
        ensures
            after.0 == self.next(reply),
            after.1 == after.0.stage.call(after.0.outcome),
    {
        let next = match self.stage {
            ExportStage::Copying => match reply {
                ExportReply::Submitted => {
                    let polls_left: u32 = if self.polls == 0 {
                        0
                    } else {
                        self.polls - 1
                    };
                    self.reach(ExportStage::Mapping(polls_left))
                },
                _ => self.fail(ExportError::IOFailure),
            },
            ExportStage::Mapping(polls_left) => match reply {
                ExportReply::MapReady => self.reach(ExportStage::Reading),
                ExportReply::MapPending => if polls_left > 0 {
                    self.reach(ExportStage::Mapping(polls_left - 1))
                } else {
                    self.fail(ExportError::ReadbackTimeout)
                },
                ExportReply::MapFailed => self.fail(ExportError::ReadbackTimeout),
                _ => self.fail(ExportError::IOFailure),
            },
            ExportStage::Reading => match reply {
                ExportReply::FileMade(true) => self.reach(ExportStage::Writing),
                _ => self.fail(ExportError::IOFailure),
            },
            ExportStage::Writing => match reply {
                ExportReply::Written(true) => self.reach(ExportStage::Finished),
                _ => self.fail(ExportError::IOFailure),
            },
            ExportStage::Finished => self,
        };
        (next, next.call_of())
    }
}

/// The mapped buffer is read only after the device has signalled that the
/// mapping is complete: no other reply, and no number of polls, leads to the
/// read.
pub proof fn lemma_read_follows_the_signal(export: Export, reply: ExportReply)
    requires
        !(export.stage is Reading),
        export.next(reply).stage is Reading,
    ensures
        export.stage is Mapping,
        reply == ExportReply::MapReady,
{
}

/// Every reply brings the export closer to its end, so the device is not
/// polled forever: an export that is waiting with `n` polls left finishes
/// within `n + 3` further steps.
pub proof fn lemma_every_reply_progresses(export: Export, reply: ExportReply)
    requires
        !(export.stage is Finished),
    ensures
        export.next(reply).steps_left() < export.steps_left(),
{
}

/// An export that is told how `polls + 4` steps ended has finished.
pub proof fn lemma_export_finishes(export: Export, replies: Seq<ExportReply>)
    requires
        replies.len() >= export.steps_left(),
    ensures
        export.run(replies).stage is Finished,
    decreases replies.len(),
{
    if replies.len() > 0 {
        if !(export.stage is Finished) {
            lemma_every_reply_progresses(export, replies[0]);
        }
        lemma_export_finishes(export.next(replies[0]), replies.drop_first());
    }
}

/// The readback times out exactly when the mapping does not complete: the
/// device signals a failure, or it has not signalled and no poll is left.
pub proof fn lemma_timeout_means_no_mapping(export: Export, reply: ExportReply)
    requires
        export.outcome is Ok,
    ensures
        export.next(reply).outcome == Err::<(), ExportError>(ExportError::ReadbackTimeout) <==> (
        export.stage matches ExportStage::Mapping(polls_left) && (reply == ExportReply::MapFailed
            || (reply == ExportReply::MapPending && polls_left == 0))),
{
}

/// An export ends well only through a written file, and an outcome once
/// reached is kept.
pub proof fn lemma_success_means_written(export: Export, reply: ExportReply)
    ensures
        export.stage is Finished ==> export.next(reply) == export,
        !(export.stage is Finished) && export.outcome is Ok && export.next(reply).stage is Finished
            && export.next(reply).outcome is Ok ==> export.stage is Writing && reply
            == ExportReply::Written(true),
{
}

} // verus!
