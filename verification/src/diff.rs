use vstd::prelude::*;

use crate::cmd::{CmdOutcome, CmdOutcomeV, CmdRequest, CmdRequestV, GitAction, GitActionV};
use crate::error::{Error, ErrorV};
use crate::fetch::{failure_v, Fetch, FetchV};
use crate::text::{trim, trim_spec};

verus! {

/// Where a diff computation stands: which command is about to run.
///
/// The machine walks `QueryHead` → `CheckSeen`, then either
/// `ResetToSeen` → `Merge` → `DiffSeen` (a reviewed repository) or
/// `DiffEmpty` (a never-reviewed one), and always ends with `Restore`,
/// the hard reset back to the saved head.
#[derive(Clone, Copy)]
pub enum DiffStep {
    /// Read the commit id of `HEAD`, to be restored at the end.
    QueryHead,
    /// Test whether the review marker exists.
    CheckSeen,
    /// Reset the working tree to the review marker.
    ResetToSeen,
    /// Stage the non-committing merge of the upstream head.
    MergeUpstream,
    /// Diff the staged merge against the review marker's tree.
    DiffSeen,
    /// Diff from the empty tree to the upstream head.
    DiffEmpty,
    /// Reset the working tree back to the saved head.
    Restore,
}

/// One in-progress diff computation over a single repository.
///
/// The caller runs the command of each emitted request and feeds the
/// outcome back through [`DiffTask::on_result`] until [`DiffNext::Done`]
/// comes out.  Whatever the outcomes, the machine never finishes between
/// a tree-mutating command and the restoring reset.
pub struct DiffTask {
    /// The package the diff is computed for.
    pub pkg: String,
    /// Whether captured diffs are forced to carry colour codes.
    pub color: bool,
    /// Whether diff output is streamed to the terminal instead of captured.
    pub stream: bool,
    /// The command about to run.
    pub step: DiffStep,
    /// The commit id of `HEAD` before the computation started.
    pub saved_head: String,
    /// The captured diff text, once the diff command has run.
    pub diff_text: String,
    /// A failure to report once the restoring reset has run.
    pub pending: Option<crate::error::CommandFailed>,
}

/// Mathematical image of a [`DiffTask`].
pub struct DiffTaskV {
    pub pkg: Seq<char>,
    pub color: bool,
    pub stream: bool,
    pub step: DiffStep,
    pub saved_head: Seq<char>,
    pub diff_text: Seq<char>,
    pub pending: Option<crate::error::CommandFailedV>,
}

impl View for DiffTask {
    type V = DiffTaskV;

    open spec fn view(&self) -> DiffTaskV {
        DiffTaskV {
            pkg: self.pkg@,
            color: self.color,
            stream: self.stream,
            step: self.step,
            saved_head: self.saved_head@,
            diff_text: self.diff_text@,
            pending: self.pending.deep_view(),
        }
    }
}

/// What a diff computation asks of its caller next.
pub enum DiffNext {
    /// Run this command and feed the outcome back to the task.
    Run(DiffTask, CmdRequest),
    /// The computation is over: the captured diff, or the failure that
    /// ended it.
    Done(Result<String, Error>),
}

/// Mathematical image of a [`DiffNext`].
pub enum DiffNextV {
    Run(DiffTaskV, CmdRequestV),
    Done(Result<Seq<char>, ErrorV>),
}

impl View for DiffNext {
    type V = DiffNextV;

    open spec fn view(&self) -> DiffNextV {
        match self {
            DiffNext::Run(t, c) => DiffNextV::Run(t@, c@),
            DiffNext::Done(r) => DiffNextV::Done(
                match r {
                    Ok(s) => Ok(s@),
                    Err(e) => Err(e@),
                },
            ),
        }
    }
}

/// The action a task runs in its current step.
pub open spec fn diff_action_v(t: DiffTaskV) -> GitActionV {
    match t.step {
        DiffStep::QueryHead => GitActionV::RevParseHead,
        DiffStep::CheckSeen => GitActionV::CheckSeen,
        DiffStep::ResetToSeen => GitActionV::ResetHardSeen,
        DiffStep::MergeUpstream => GitActionV::MergeNoCommit,
        DiffStep::DiffSeen => if t.stream {
            GitActionV::DiffStagedDefault
        } else {
            GitActionV::DiffStaged { color: t.color }
        },
        DiffStep::DiffEmpty => if t.stream {
            GitActionV::DiffEmptyTreeDefault
        } else {
            GitActionV::DiffEmptyTree { color: t.color }
        },
        DiffStep::Restore => GitActionV::ResetHardTo { commit: t.saved_head },
    }
}

/// Whether the current step's output is captured: everything is, except
/// the diff commands of a streaming task.
pub open spec fn diff_capture_v(t: DiffTaskV) -> bool {
    match t.step {
        DiffStep::DiffSeen => !t.stream,
        DiffStep::DiffEmpty => !t.stream,
        _ => true,
    }
}

/// The request a task emits in its current step.
pub open spec fn diff_request_v(t: DiffTaskV) -> CmdRequestV {
    CmdRequestV { action: diff_action_v(t), capture: diff_capture_v(t) }
}

/// The whole transition relation of the diff machine: given the outcome
/// of the current step's command, the machine that continues, or the
/// finished result.
///
/// A failure before anything was mutated (the head query) ends the
/// computation at once; a failure of the marker check only selects the
/// empty-tree path; a failure after the first mutation is held as
/// `pending` and reported only after the restoring reset has run.
pub open spec fn diff_step_spec(conf: FetchV, t: DiffTaskV, out: CmdOutcomeV) -> DiffNextV {
    let fail = failure_v(conf, t.pkg, diff_action_v(t), Some(out.stderr));
    match t.step {
        DiffStep::QueryHead => if out.ok {
            let t2 = DiffTaskV { step: DiffStep::CheckSeen, saved_head: trim_spec(out.stdout), ..t };
            DiffNextV::Run(t2, diff_request_v(t2))
        } else {
            DiffNextV::Done(Err(ErrorV::CommandFailed(fail)))
        },
        DiffStep::CheckSeen => if out.ok {
            let t2 = DiffTaskV { step: DiffStep::ResetToSeen, ..t };
            DiffNextV::Run(t2, diff_request_v(t2))
        } else {
            let t2 = DiffTaskV { step: DiffStep::DiffEmpty, ..t };
            DiffNextV::Run(t2, diff_request_v(t2))
        },
        DiffStep::ResetToSeen => if out.ok {
            let t2 = DiffTaskV { step: DiffStep::MergeUpstream, ..t };
            DiffNextV::Run(t2, diff_request_v(t2))
        } else {
            let t2 = DiffTaskV { step: DiffStep::Restore, pending: Some(fail), ..t };
            DiffNextV::Run(t2, diff_request_v(t2))
        },
        DiffStep::MergeUpstream => if out.ok {
            let t2 = DiffTaskV { step: DiffStep::DiffSeen, ..t };
            DiffNextV::Run(t2, diff_request_v(t2))
        } else {
            let t2 = DiffTaskV { step: DiffStep::Restore, pending: Some(fail), ..t };
            DiffNextV::Run(t2, diff_request_v(t2))
        },
        DiffStep::DiffSeen => if out.ok {
            let t2 = DiffTaskV { step: DiffStep::Restore, diff_text: out.stdout, ..t };
            DiffNextV::Run(t2, diff_request_v(t2))
        } else {
            let t2 = DiffTaskV { step: DiffStep::Restore, pending: Some(fail), ..t };
            DiffNextV::Run(t2, diff_request_v(t2))
        },
        DiffStep::DiffEmpty => if out.ok {
            let t2 = DiffTaskV { step: DiffStep::Restore, diff_text: out.stdout, ..t };
            DiffNextV::Run(t2, diff_request_v(t2))
        } else {
            let t2 = DiffTaskV { step: DiffStep::Restore, pending: Some(fail), ..t };
            DiffNextV::Run(t2, diff_request_v(t2))
        },
        DiffStep::Restore => match t.pending {
            Some(f) => DiffNextV::Done(Err(ErrorV::CommandFailed(f))),
            None => if out.ok {
                DiffNextV::Done(Ok(t.diff_text))
            } else {
                DiffNextV::Done(Err(ErrorV::CommandFailed(fail)))
            },
        },
    }
}

/// The start state of a diff computation.
pub open spec fn diff_start_v(pkg: Seq<char>, color: bool, stream: bool) -> DiffTaskV {
    DiffTaskV {
        pkg: pkg,
        color: color,
        stream: stream,
        step: DiffStep::QueryHead,
        saved_head: Seq::empty(),
        diff_text: Seq::empty(),
        pending: None,
    }
}

impl DiffTask {
    /// The action run in the current step.
    fn action(&self) -> (a: GitAction)
        ensures
            a@ == diff_action_v(self@),
    {
        match self.step {
            DiffStep::QueryHead => GitAction::RevParseHead,
            DiffStep::CheckSeen => GitAction::CheckSeen,
            DiffStep::ResetToSeen => GitAction::ResetHardSeen,
            DiffStep::MergeUpstream => GitAction::MergeNoCommit,
            DiffStep::DiffSeen => if self.stream {
                GitAction::DiffStagedDefault
            } else {
                GitAction::DiffStaged { color: self.color }
            },
            DiffStep::DiffEmpty => if self.stream {
                GitAction::DiffEmptyTreeDefault
            } else {
                GitAction::DiffEmptyTree { color: self.color }
            },
            DiffStep::Restore => GitAction::ResetHardTo { commit: self.saved_head.clone() },
        }
    }

    /// The request emitted in the current step.
    fn request(&self) -> (r: CmdRequest)
        ensures
            r@ == diff_request_v(self@),
    {
        let capture = match self.step {
            DiffStep::DiffSeen => !self.stream,
            DiffStep::DiffEmpty => !self.stream,
            _ => true,
        };
        CmdRequest { action: self.action(), capture }
    }

    /// Begins a diff computation for one package, yielding the machine
    /// and its first command: the head query.
    pub fn start(pkg: String, color: bool, stream: bool) -> (r: (DiffTask, CmdRequest))
        ensures
            r.0@ == diff_start_v(pkg@, color, stream),
            r.1@ == diff_request_v(r.0@),
    {
        let t = DiffTask {
            pkg,
            color,
            stream,
            step: DiffStep::QueryHead,
            saved_head: String::new(),
            diff_text: String::new(),
            pending: None,
        };
        proof {
            assert(t@.saved_head =~= Seq::<char>::empty());
            assert(t@.diff_text =~= Seq::<char>::empty());
        }
        let req = t.request();
        (t, req)
    }

    /// Advances the machine by the outcome of the command it last asked
    /// for, as [`diff_step_spec`] lays down.
    pub fn on_result(self, conf: &Fetch, out: &CmdOutcome) -> (r: DiffNext)
        ensures
            r@ == diff_step_spec(conf@, self@, out@),
    {
        let step = self.step;
        match step {
            DiffStep::QueryHead => {
                if out.ok {
                    let saved = trim(out.stdout.as_str());
                    let t = DiffTask { step: DiffStep::CheckSeen, saved_head: saved, ..self };
                    let req = t.request();
                    DiffNext::Run(t, req)
                } else {
                    let a = self.action();
                    let f = conf.failure(self.pkg.as_str(), &a, Some(out.stderr.clone()));
                    DiffNext::Done(Err(Error::CommandFailed(f)))
                }
            },
            DiffStep::CheckSeen => {
                let t = if out.ok {
                    DiffTask { step: DiffStep::ResetToSeen, ..self }
                } else {
                    DiffTask { step: DiffStep::DiffEmpty, ..self }
                };
                let req = t.request();
                DiffNext::Run(t, req)
            },
            DiffStep::ResetToSeen => {
                let t = if out.ok {
                    DiffTask { step: DiffStep::MergeUpstream, ..self }
                } else {
                    let a = self.action();
                    let f = conf.failure(self.pkg.as_str(), &a, Some(out.stderr.clone()));
                    DiffTask { step: DiffStep::Restore, pending: Some(f), ..self }
                };
                let req = t.request();
                DiffNext::Run(t, req)
            },
            DiffStep::MergeUpstream => {
                let t = if out.ok {
                    DiffTask { step: DiffStep::DiffSeen, ..self }
                } else {
                    let a = self.action();
                    let f = conf.failure(self.pkg.as_str(), &a, Some(out.stderr.clone()));
                    DiffTask { step: DiffStep::Restore, pending: Some(f), ..self }
                };
                let req = t.request();
                DiffNext::Run(t, req)
            },
            DiffStep::DiffSeen => {
                let t = if out.ok {
                    DiffTask { step: DiffStep::Restore, diff_text: out.stdout.clone(), ..self }
                } else {
                    let a = self.action();
                    let f = conf.failure(self.pkg.as_str(), &a, Some(out.stderr.clone()));
                    DiffTask { step: DiffStep::Restore, pending: Some(f), ..self }
                };
                let req = t.request();
                DiffNext::Run(t, req)
            },
            DiffStep::DiffEmpty => {
                let t = if out.ok {
                    DiffTask { step: DiffStep::Restore, diff_text: out.stdout.clone(), ..self }
                } else {
                    let a = self.action();
                    let f = conf.failure(self.pkg.as_str(), &a, Some(out.stderr.clone()));
                    DiffTask { step: DiffStep::Restore, pending: Some(f), ..self }
                };
                let req = t.request();
                DiffNext::Run(t, req)
            },
            DiffStep::Restore => {
                let DiffTask { pkg, saved_head, diff_text, pending, .. } = self;
                match pending {
                    Some(f) => DiffNext::Done(Err(Error::CommandFailed(f))),
                    None => {
                        if out.ok {
                            DiffNext::Done(Ok(diff_text))
                        } else {
                            let act = GitAction::ResetHardTo { commit: saved_head };
                            let f = conf.failure(pkg.as_str(), &act, Some(out.stderr.clone()));
                            DiffNext::Done(Err(Error::CommandFailed(f)))
                        }
                    },
                }
            },
        }
    }
}

} // verus!
