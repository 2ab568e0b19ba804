//! The run lifecycle of one container, as an explicit state machine.
//!
//! A run is: create the container, start it attached, inspect its final
//! state for an out-of-memory kill, and — whatever happened on the way —
//! delete it exactly once before reporting. The embedding program drives the
//! machine: it executes each emitted command and feeds the outcome back
//! through [`RunSession::step`] until the action is `Done`. The cleanup
//! discipline ([`RunSession::wf`]) is maintained by every step, so a driver
//! that runs the machine to completion deletes exactly once per successful
//! creation, whether or not the start or the inspection failed. A deletion
//! failure is reported on the side and never overrides the run's result.
use vstd::prelude::*;

use crate::command::CommandSpec;
use crate::docker::combined_result;
use crate::docker::is_create_command;
use crate::docker::is_delete_command;
use crate::docker::is_inspect_command;
use crate::docker::is_start_command;
use crate::docker::Container;
use crate::docker::ContainerBuilder;
use crate::command::views_of;
use crate::errors::CmdError;
use crate::errors::Error;
use crate::inspect::join_nl;
use crate::inspect::oom_decode_of;
use crate::inspect::OomDecode;

verus! {

/// One phase of a container run.
pub enum RunState {
    /// Awaiting the create command's outcome; no container exists yet.
    Creating,
    /// Awaiting the attached start command's outcome; cleanup is owed.
    Starting { container: Container },
    /// Awaiting the metadata query's outcome; cleanup is owed.
    Inspecting { container: Container, start: Result<(), CmdError> },
    /// The delete command has been emitted; `pending` is the result to
    /// report once cleanup has run.
    Deleting { container: Container, pending: Result<(), Error> },
    /// The run is over. A failed deletion is noted on the side.
    Finished { result: Result<(), Error>, delete_failed: bool },
}

/// What the embedding program must do next.
pub enum StepAction {
    /// Execute this command and feed its outcome back through `step`.
    Exec(CommandSpec),
    /// Nothing more to run; the session result is in its `Finished` state.
    Done,
}

/// A container run in progress. The ghost fields record the session's
/// history: whether a create command has succeeded, and how many delete
/// commands have been emitted.
pub struct RunSession {
    pub state: RunState,
    /// Suppress the workload's echoed output when starting attached.
    pub quiet: bool,
    pub created: Ghost<bool>,
    pub deletes_emitted: Ghost<nat>,
}

impl RunSession {
    /// The cleanup discipline every session obeys: before a successful
    /// create nothing is owed and nothing was deleted; from the moment a
    /// container exists until its delete command is emitted exactly zero
    /// deletes have been emitted; once emitted, exactly one; and a finished
    /// session has emitted exactly one delete if and only if its create
    /// succeeded.
    pub open spec fn wf(self) -> bool {
        match self.state {
            RunState::Creating => !self.created@ && self.deletes_emitted@ == 0,
            RunState::Starting { .. } => self.created@ && self.deletes_emitted@ == 0,
            RunState::Inspecting { .. } => self.created@ && self.deletes_emitted@ == 0,
            RunState::Deleting { .. } => self.created@ && self.deletes_emitted@ == 1,
            RunState::Finished { .. } => self.deletes_emitted@ == (
            if self.created@ {
                1nat
            } else {
                0nat
            }),
        }
    }

    /// Advance the session with the outcome of the previously emitted
    /// command. Exactly one delete command is emitted over any session, on
    /// the transition out of inspection, whatever the outcomes were.
    pub fn step(self, outcome: Result<Vec<String>, CmdError>) -> (r: (RunSession, StepAction))
        requires
            self.wf(),
        ensures
            r.0.wf(),
            r.0.quiet == self.quiet,
            self.state is Creating ==> {
                &&& (outcome matches Ok(lines) ==> {
                    &&& (lines@.len() > 0 ==> {
                        &&& r.0.created@
                        &&& r.0.deletes_emitted@ == self.deletes_emitted@
                        &&& (r.0.state matches RunState::Starting { container }
                            && container.id_view() == lines@[0]@)
                        &&& (r.1 matches StepAction::Exec(c) && is_start_command(
                            c,
                            lines@[0]@,
                            self.quiet,
                        ))
                    })
                    &&& (lines@.len() == 0 ==> {
                        &&& !r.0.created@
                        &&& r.0.deletes_emitted@ == self.deletes_emitted@
                        &&& (r.0.state matches RunState::Finished { result, delete_failed }
                            && (result matches Err(e) && e is CommandFailure) && !delete_failed)
                        &&& r.1 is Done
                    })
                })
                &&& (outcome is Err ==> {
                    &&& !r.0.created@
                    &&& r.0.deletes_emitted@ == self.deletes_emitted@
                    &&& (r.0.state matches RunState::Finished { result, delete_failed } && (
                    result matches Err(e) && e is CommandFailure) && !delete_failed)
                    &&& r.1 is Done
                })
            },
            self.state matches RunState::Starting { container } ==> {
                &&& r.0.created@ == self.created@
                &&& r.0.deletes_emitted@ == self.deletes_emitted@
                &&& (r.0.state matches RunState::Inspecting { container: c2, start } && c2
                    == container && (outcome is Ok ==> start is Ok) && (outcome matches Err(e)
                    ==> (start matches Err(e2) && e2 == e)))
                &&& (r.1 matches StepAction::Exec(c) && is_inspect_command(
                    c,
                    container.id_view(),
                ))
            },
            self.state matches RunState::Inspecting { container, start } ==> {
                &&& r.0.created@ == self.created@
                &&& r.0.deletes_emitted@ == self.deletes_emitted@ + 1
                &&& (r.0.state matches RunState::Deleting { container: c2, pending } && c2
                    == container && {
                    &&& (outcome matches Ok(lines) ==> ({
                        let d = oom_decode_of(join_nl(views_of(lines@)));
                        &&& (d matches OomDecode::Flag { oom } ==> pending
                            == combined_result(start, Ok::<bool, Error>(oom)))
                        &&& (d matches OomDecode::Records { records } ==> pending
                            == combined_result(
                            start,
                            Err::<bool, Error>(
                                Error::InspectionInvariantViolation { records },
                            ),
                        ))
                        &&& ((d is Undecodable || d is Malformed) ==> (pending matches Err(
                            e,
                        ) && e is CommandFailure))
                    }))
                    &&& (outcome is Err ==> (pending matches Err(e) && e is CommandFailure))
                })
                &&& (r.1 matches StepAction::Exec(c) && is_delete_command(
                    c,
                    container.id_view(),
                ))
            },
            self.state matches RunState::Deleting { container, pending } ==> {
                &&& r.0.created@ == self.created@
                &&& r.0.deletes_emitted@ == self.deletes_emitted@
                &&& (r.0.state matches RunState::Finished { result, delete_failed } && result
                    == pending && delete_failed == (outcome is Err))
                &&& r.1 is Done
            },
            self.state is Finished ==> r.0 == self && r.1 is Done,
    {
        let RunSession { state, quiet, created, deletes_emitted } = self;
        match state {
            RunState::Creating => {
                match Container::from_create_outcome(&outcome) {
                    Ok(container) => {
                        let cmd = container.start_command(quiet);
                        (
                            RunSession {
                                state: RunState::Starting { container },
                                quiet,
                                created: Ghost(true),
                                deletes_emitted,
                            },
                            StepAction::Exec(cmd),
                        )
                    },
                    Err(e) => (
                        RunSession {
                            state: RunState::Finished { result: Err(e), delete_failed: false },
                            quiet,
                            created,
                            deletes_emitted,
                        },
                        StepAction::Done,
                    ),
                }
            },
            RunState::Starting { container } => {
                let start: Result<(), CmdError> = match outcome {
                    Ok(_) => Ok(()),
                    Err(e) => Err(e),
                };
                let cmd = container.inspect_command();
                (
                    RunSession {
                        state: RunState::Inspecting { container, start },
                        quiet,
                        created,
                        deletes_emitted,
                    },
                    StepAction::Exec(cmd),
                )
            },
            RunState::Inspecting { container, start } => {
                let insp = container.inspect(&outcome);
                let pending = container.run(start, insp);
                let cmd = container.delete();
                (
                    RunSession {
                        state: RunState::Deleting { container, pending },
                        quiet,
                        created,
                        deletes_emitted: Ghost(deletes_emitted@ + 1),
                    },
                    StepAction::Exec(cmd),
                )
            },
            RunState::Deleting { container: _, pending } => (
                RunSession {
                    state: RunState::Finished {
                        result: pending,
                        delete_failed: outcome.is_err(),
                    },
                    quiet,
                    created,
                    deletes_emitted,
                },
                StepAction::Done,
            ),
            RunState::Finished { result, delete_failed } => (
                RunSession {
                    state: RunState::Finished { result, delete_failed },
                    quiet,
                    created,
                    deletes_emitted,
                },
                StepAction::Done,
            ),
        }
    }

    /// The run's result, once the session is finished.
    pub fn result(&self) -> (r: Option<Result<(), Error>>)
        ensures
            self.state matches RunState::Finished { result, .. } ==> (r matches Some(x) && x
                == result),
            !(self.state is Finished) ==> r is None,
    {
        match &self.state {
            RunState::Finished { result, .. } => {
                match result {
                    Ok(u) => Some(Ok(*u)),
                    Err(e) => Some(Err(e.clone())),
                }
            },
            _ => None,
        }
    }
}

impl ContainerBuilder {
    /// Begin a run of this specification: the fresh session awaiting the
    /// create command's outcome, and the create command itself. Relative
    /// mount sources are resolved under `cwd`. The embedding program
    /// executes each emitted command — creating mount host directories
    /// before the create command — and steps the session with each outcome
    /// until `Done`; the session's discipline then guarantees the container
    /// is deleted exactly once per successful creation, on every path.
    pub fn run(self, quiet: bool, cwd: &str) -> (r: (RunSession, CommandSpec))
        ensures
            r.0.wf(),
            r.0.state is Creating,
            r.0.quiet == quiet,
            !r.0.created@,
            r.0.deletes_emitted@ == 0,
            is_create_command(r.1, self, cwd@),
    {
        let cmd = self.create(cwd);
        (
            RunSession {
                state: RunState::Creating,
                quiet,
                created: Ghost(false),
                deletes_emitted: Ghost(0nat),
            },
            cmd,
        )
    }
}

/// Law of guaranteed cleanup: in any well-formed session at most one delete
/// command has ever been emitted; a session that still holds a container
/// (start or inspection in flight) has emitted none and its create
/// succeeded; a session whose cleanup is in flight has emitted exactly one;
/// and a finished session has emitted exactly one delete if and only if its
/// create succeeded. Since every step preserves well-formedness and a
/// session only finishes through the deleting phase once a container exists,
/// a driver that steps the machine to `Done` deletes exactly once per
/// successful create, whatever each command's outcome was.
pub proof fn lemma_cleanup_exactly_once(s: RunSession)
    requires
        s.wf(),
    ensures
        s.deletes_emitted@ <= 1,
        (s.state is Starting || s.state is Inspecting) ==> s.created@ && s.deletes_emitted@
            == 0,
        s.state is Deleting ==> s.created@ && s.deletes_emitted@ == 1,
        s.state is Finished ==> s.deletes_emitted@ == (
        if s.created@ {
            1nat
        } else {
            0nat
        }),
{
}

} // verus!
