use vstd::prelude::*;

use crate::cmd::{CmdOutcome, CmdOutcomeV, CmdRequest, CmdRequestV, GitAction, GitActionV};
use crate::error::{Error, ErrorV};
use crate::fetch::{failure_v, Fetch, FetchV};

verus! {

/// Where a merge (rebase onto upstream) stands.
#[derive(Clone, Copy)]
pub enum MergeStep {
    /// Throw away uncommitted edits: reset the working tree to `HEAD`.
    ResetWorktree,
    /// Test whether `HEAD` names a branch.
    CheckBranch,
    /// Check out the default branch (after a detached `HEAD`).
    Checkout,
    /// Rebase the branch onto its upstream.
    Rebase,
}

/// Merges one repository with its upstream: local edits are discarded,
/// a detached head is first brought back to the default branch, and the
/// branch is rebased onto the fetched upstream.  A rebase that cannot
/// complete cleanly fails and leaves the repository mid-rebase for
/// manual resolution.
pub struct MergeTask {
    /// The package being merged.
    pub pkg: String,
    /// The command about to run.
    pub step: MergeStep,
}

/// Mathematical image of a [`MergeTask`].
pub struct MergeTaskV {
    pub pkg: Seq<char>,
    pub step: MergeStep,
}

impl View for MergeTask {
    type V = MergeTaskV;

    open spec fn view(&self) -> MergeTaskV {
        MergeTaskV { pkg: self.pkg@, step: self.step }
    }
}

/// What a merge asks of its caller next.
pub enum MergeNext {
    /// Run this command and feed the outcome back.
    Run(MergeTask, CmdRequest),
    /// The merge is over: the rebase's output, or the failure that
    /// ended it.
    Done(Result<String, Error>),
}

/// Mathematical image of a [`MergeNext`].
pub enum MergeNextV {
    Run(MergeTaskV, CmdRequestV),
    Done(Result<Seq<char>, ErrorV>),
}

impl View for MergeNext {
    type V = MergeNextV;

    open spec fn view(&self) -> MergeNextV {
        match self {
            MergeNext::Run(t, c) => MergeNextV::Run(t@, c@),
            MergeNext::Done(r) => MergeNextV::Done(
                match r {
                    Ok(s) => Ok(s@),
                    Err(e) => Err(e@),
                },
            ),
        }
    }
}

/// The action a merge runs in its current step.
pub open spec fn merge_action_v(t: MergeTaskV) -> GitActionV {
    match t.step {
        MergeStep::ResetWorktree => GitActionV::ResetHardHeadQuiet,
        MergeStep::CheckBranch => GitActionV::SymbolicRefHead,
        MergeStep::Checkout => GitActionV::CheckoutMaster,
        MergeStep::Rebase => GitActionV::Rebase,
    }
}

/// The transition relation of the merge machine.  A failed branch test
/// is no error — it selects the checkout of the default branch; every
/// other failure ends the merge with that command's failure record.
pub open spec fn merge_step_spec(conf: FetchV, t: MergeTaskV, out: CmdOutcomeV) -> MergeNextV {
    let fail = ErrorV::CommandFailed(failure_v(conf, t.pkg, merge_action_v(t), Some(out.stderr)));
    match t.step {
        MergeStep::ResetWorktree => if out.ok {
            let t2 = MergeTaskV { step: MergeStep::CheckBranch, ..t };
            MergeNextV::Run(t2, merge_request_v(t2))
        } else {
            MergeNextV::Done(Err(fail))
        },
        MergeStep::CheckBranch => if out.ok {
            let t2 = MergeTaskV { step: MergeStep::Rebase, ..t };
            MergeNextV::Run(t2, merge_request_v(t2))
        } else {
            let t2 = MergeTaskV { step: MergeStep::Checkout, ..t };
            MergeNextV::Run(t2, merge_request_v(t2))
        },
        MergeStep::Checkout => if out.ok {
            let t2 = MergeTaskV { step: MergeStep::Rebase, ..t };
            MergeNextV::Run(t2, merge_request_v(t2))
        } else {
            MergeNextV::Done(Err(fail))
        },
        MergeStep::Rebase => if out.ok {
            MergeNextV::Done(Ok(out.stdout))
        } else {
            MergeNextV::Done(Err(fail))
        },
    }
}

/// The request a merge emits in its current step; all output is
/// captured.
pub open spec fn merge_request_v(t: MergeTaskV) -> CmdRequestV {
    CmdRequestV { action: merge_action_v(t), capture: true }
}

impl MergeTask {
    /// The action run in the current step.
    fn action(&self) -> (a: GitAction)
        ensures
            a@ == merge_action_v(self@),
    {
        match self.step {
            MergeStep::ResetWorktree => GitAction::ResetHardHeadQuiet,
            MergeStep::CheckBranch => GitAction::SymbolicRefHead,
            MergeStep::Checkout => GitAction::CheckoutMaster,
            MergeStep::Rebase => GitAction::Rebase,
        }
    }

    /// The request emitted in the current step.
    fn request(&self) -> (r: CmdRequest)
        ensures
            r@ == merge_request_v(self@),
    {
        CmdRequest { action: self.action(), capture: true }
    }

    /// Begins a merge of one package; the first command discards
    /// uncommitted edits.
    pub fn start(pkg: String) -> (r: (MergeTask, CmdRequest))
        ensures
            r.0@ == (MergeTaskV { pkg: pkg@, step: MergeStep::ResetWorktree }),
            r.1@ == merge_request_v(r.0@),
    {
        let t = MergeTask { pkg, step: MergeStep::ResetWorktree };
        let req = t.request();
        (t, req)
    }

    /// Advances the merge by the outcome of the command it last asked
    /// for, as [`merge_step_spec`] lays down.
    pub fn on_result(self, conf: &Fetch, out: &CmdOutcome) -> (r: MergeNext)
        ensures
            r@ == merge_step_spec(conf@, self@, out@),
    {
        match self.step {
            MergeStep::ResetWorktree => {
                if out.ok {
                    let t = MergeTask { step: MergeStep::CheckBranch, ..self };
                    let req = t.request();
                    MergeNext::Run(t, req)
                } else {
                    let a = self.action();
                    let f = conf.failure(self.pkg.as_str(), &a, Some(out.stderr.clone()));
                    MergeNext::Done(Err(Error::CommandFailed(f)))
                }
            },
            MergeStep::CheckBranch => {
                let t = if out.ok {
                    MergeTask { step: MergeStep::Rebase, ..self }
                } else {
                    MergeTask { step: MergeStep::Checkout, ..self }
                };
                let req = t.request();
                MergeNext::Run(t, req)
            },
            MergeStep::Checkout => {
                if out.ok {
                    let t = MergeTask { step: MergeStep::Rebase, ..self };
                    let req = t.request();
                    MergeNext::Run(t, req)
                } else {
                    let a = self.action();
                    let f = conf.failure(self.pkg.as_str(), &a, Some(out.stderr.clone()));
                    MergeNext::Done(Err(Error::CommandFailed(f)))
                }
            },
            MergeStep::Rebase => {
                if out.ok {
                    MergeNext::Done(Ok(out.stdout.clone()))
                } else {
                    let a = self.action();
                    let f = conf.failure(self.pkg.as_str(), &a, Some(out.stderr.clone()));
                    MergeNext::Done(Err(Error::CommandFailed(f)))
                }
            },
        }
    }
}

/// Where a commit of local edits stands.
#[derive(Clone, Copy)]
pub enum CommitStep {
    /// Test whether a committer name is configured.
    CheckName,
    /// Test whether a committer address is configured.
    CheckEmail,
    /// Test whether the working tree has uncommitted changes.
    CheckChanges,
    /// Commit everything.
    DoCommit,
}

/// Commits a repository's uncommitted edits, if there are any, under
/// the repository's configured identity when one exists and under a
/// synthetic identity otherwise.
pub struct CommitTask {
    /// The package whose edits are committed.
    pub pkg: String,
    /// The message given to a commit under a configured identity.
    pub message: String,
    /// The command about to run.
    pub step: CommitStep,
    /// Whether a full committer identity was found.
    pub has_user: bool,
}

/// Mathematical image of a [`CommitTask`].
pub struct CommitTaskV {
    pub pkg: Seq<char>,
    pub message: Seq<char>,
    pub step: CommitStep,
    pub has_user: bool,
}

impl View for CommitTask {
    type V = CommitTaskV;

    open spec fn view(&self) -> CommitTaskV {
        CommitTaskV {
            pkg: self.pkg@,
            message: self.message@,
            step: self.step,
            has_user: self.has_user,
        }
    }
}

/// What a commit asks of its caller next.
pub enum CommitNext {
    /// Run this command and feed the outcome back.
    Run(CommitTask, CmdRequest),
    /// The commit is over (also when there was nothing to commit), or
    /// it failed.
    Done(Result<(), Error>),
}

/// Mathematical image of a [`CommitNext`].
pub enum CommitNextV {
    Run(CommitTaskV, CmdRequestV),
    Done(Result<(), ErrorV>),
}

impl View for CommitNext {
    type V = CommitNextV;

    open spec fn view(&self) -> CommitNextV {
        match self {
            CommitNext::Run(t, c) => CommitNextV::Run(t@, c@),
            CommitNext::Done(r) => CommitNextV::Done(
                match r {
                    Ok(u) => Ok(*u),
                    Err(e) => Err(e@),
                },
            ),
        }
    }
}

/// The action a commit runs in its current step.
pub open spec fn commit_action_v(t: CommitTaskV) -> GitActionV {
    match t.step {
        CommitStep::CheckName => GitActionV::ConfigUserName,
        CommitStep::CheckEmail => GitActionV::ConfigUserEmail,
        CommitStep::CheckChanges => GitActionV::DiffExitCode,
        CommitStep::DoCommit => if t.has_user {
            GitActionV::CommitAll { message: t.message }
        } else {
            GitActionV::CommitAllSynthetic
        },
    }
}

/// The request a commit emits in its current step; all output is
/// captured.
pub open spec fn commit_request_v(t: CommitTaskV) -> CmdRequestV {
    CmdRequestV { action: commit_action_v(t), capture: true }
}

/// The transition relation of the commit machine.  A missing committer
/// name skips the address test (the identity is already incomplete);
/// a working tree with no changes ends the commit with nothing done;
/// only the final commit command can fail the operation.
pub open spec fn commit_step_spec(conf: FetchV, t: CommitTaskV, out: CmdOutcomeV) -> CommitNextV {
    let fail = ErrorV::CommandFailed(failure_v(conf, t.pkg, commit_action_v(t), Some(out.stderr)));
    match t.step {
        CommitStep::CheckName => if out.ok {
            let t2 = CommitTaskV { step: CommitStep::CheckEmail, ..t };
            CommitNextV::Run(t2, commit_request_v(t2))
        } else {
            let t2 = CommitTaskV { step: CommitStep::CheckChanges, has_user: false, ..t };
            CommitNextV::Run(t2, commit_request_v(t2))
        },
        CommitStep::CheckEmail => {
            let t2 = CommitTaskV { step: CommitStep::CheckChanges, has_user: out.ok, ..t };
            CommitNextV::Run(t2, commit_request_v(t2))
        },
        CommitStep::CheckChanges => if out.ok {
            CommitNextV::Done(Ok(()))
        } else {
            let t2 = CommitTaskV { step: CommitStep::DoCommit, ..t };
            CommitNextV::Run(t2, commit_request_v(t2))
        },
        CommitStep::DoCommit => if out.ok {
            CommitNextV::Done(Ok(()))
        } else {
            CommitNextV::Done(Err(fail))
        },
    }
}

impl CommitTask {
    /// The action run in the current step.
    fn action(&self) -> (a: GitAction)
        ensures
            a@ == commit_action_v(self@),
    {
        match self.step {
            CommitStep::CheckName => GitAction::ConfigUserName,
            CommitStep::CheckEmail => GitAction::ConfigUserEmail,
            CommitStep::CheckChanges => GitAction::DiffExitCode,
            CommitStep::DoCommit => if self.has_user {
                GitAction::CommitAll { message: self.message.clone() }
            } else {
                GitAction::CommitAllSynthetic
            },
        }
    }

    /// The request emitted in the current step.
    fn request(&self) -> (r: CmdRequest)
        ensures
            r@ == commit_request_v(self@),
    {
        CmdRequest { action: self.action(), capture: true }
    }

    /// Begins a commit of one package's local edits with the given
    /// message; the first command tests for a configured committer
    /// name.
    pub fn start(pkg: String, message: String) -> (r: (CommitTask, CmdRequest))
        ensures
            r.0@ == (CommitTaskV {
                pkg: pkg@,
                message: message@,
                step: CommitStep::CheckName,
                has_user: false,
            }),
            r.1@ == commit_request_v(r.0@),
    {
        let t = CommitTask { pkg, message, step: CommitStep::CheckName, has_user: false };
        let req = t.request();
        (t, req)
    }

    /// Advances the commit by the outcome of the command it last asked
    /// for, as [`commit_step_spec`] lays down.
    pub fn on_result(self, conf: &Fetch, out: &CmdOutcome) -> (r: CommitNext)
        ensures
            r@ == commit_step_spec(conf@, self@, out@),
    {
        match self.step {
            CommitStep::CheckName => {
                let t = if out.ok {
                    CommitTask { step: CommitStep::CheckEmail, ..self }
                } else {
                    CommitTask { step: CommitStep::CheckChanges, has_user: false, ..self }
                };
                let req = t.request();
                CommitNext::Run(t, req)
            },
            CommitStep::CheckEmail => {
                let t = CommitTask { step: CommitStep::CheckChanges, has_user: out.ok, ..self };
                let req = t.request();
                CommitNext::Run(t, req)
            },
            CommitStep::CheckChanges => {
                if out.ok {
                    CommitNext::Done(Ok(()))
                } else {
                    let t = CommitTask { step: CommitStep::DoCommit, ..self };
                    let req = t.request();
                    CommitNext::Run(t, req)
                }
            },
            CommitStep::DoCommit => {
                if out.ok {
                    CommitNext::Done(Ok(()))
                } else {
                    let a = self.action();
                    let f = conf.failure(self.pkg.as_str(), &a, Some(out.stderr.clone()));
                    CommitNext::Done(Err(Error::CommandFailed(f)))
                }
            },
        }
    }
}

/// The single command that moves the review marker to the checked-out
/// head.
pub fn mark_seen_request() -> (r: CmdRequest)
    ensures
        r@.action is UpdateSeenRef,
        r@.capture,
{
    CmdRequest { action: GitAction::UpdateSeenRef, capture: true }
}

/// The single command that prints the commit log from the checked-out
/// head to the upstream head.
pub fn log_request(color: bool) -> (r: CmdRequest)
    ensures
        r@.action matches GitActionV::Log { color: c } && c == color,
        r@.capture,
{
    CmdRequest { action: GitAction::Log { color }, capture: true }
}

} // verus!
