use vstd::prelude::*;

use crate::cmd::{CmdOutcome, CmdOutcomeV, CmdRequest, GitAction};
use crate::model::{model_has_diff, model_needs_merge, model_unseen, RepoModel};
use crate::text::{first_two_lines, line0, line1};

verus! {

/// Where an "unseen" query stands.
#[derive(Clone, Copy)]
pub enum UnseenStep {
    /// Test whether the review marker exists.
    CheckSeen,
    /// Test whether the upstream head is an ancestor of the marker.
    CheckAncestor,
}

/// Decides whether a repository holds changes the user has not reviewed
/// yet: true when no review marker exists, or when the upstream head is
/// not an ancestor of it (new commits landed since the last review).
pub struct UnseenTask {
    /// The command about to run.
    pub step: UnseenStep,
}

/// What an "unseen" query asks of its caller next.
pub enum UnseenNext {
    /// Run this command and feed the outcome back.
    Run(UnseenTask, CmdRequest),
    /// The answer.
    Done(bool),
}

/// The final answer of the unseen decision, from the two commands'
/// success flags: unseen unless the marker exists and the upstream head
/// is its ancestor.
pub open spec fn unseen_answer(ok_seen: bool, ok_ancestor: bool) -> bool {
    !ok_seen || !ok_ancestor
}

impl UnseenTask {
    /// Begins an "unseen" query; the first command tests the marker.
    pub fn start() -> (r: (UnseenTask, CmdRequest))
        ensures
            r.0.step is CheckSeen,
            r.1@.action is CheckSeen,
            r.1@.capture,
    {
        (UnseenTask { step: UnseenStep::CheckSeen }, CmdRequest {
            action: GitAction::CheckSeen,
            capture: true,
        })
    }

    /// Advances by one command outcome.  A missing marker answers
    /// "unseen" at once; otherwise the ancestry test answers: its
    /// failure (upstream unresolvable or not an ancestor) means unseen.
    pub fn on_result(self, out: &CmdOutcome) -> (r: UnseenNext)
        ensures
            self.step is CheckSeen && out.ok ==> (r matches UnseenNext::Run(t2, req)
                && t2.step is CheckAncestor && req@.action is IsAncestorUpstreamSeen
                && req@.capture),
            self.step is CheckSeen && !out.ok ==> (r matches UnseenNext::Done(b) && b
                == unseen_answer(false, false)),
            self.step is CheckAncestor ==> (r matches UnseenNext::Done(b) && b == unseen_answer(
                true,
                out.ok,
            )),
    {
        match self.step {
            UnseenStep::CheckSeen => {
                if out.ok {
                    (UnseenNext::Run(UnseenTask { step: UnseenStep::CheckAncestor }, CmdRequest {
                        action: GitAction::IsAncestorUpstreamSeen,
                        capture: true,
                    }))
                } else {
                    UnseenNext::Done(true)
                }
            },
            UnseenStep::CheckAncestor => UnseenNext::Done(!out.ok),
        }
    }
}

/// The unseen decision answers exactly what the model holds, for any
/// outcomes that report the repository faithfully: the marker test
/// succeeds exactly when a marker exists, and the ancestry test
/// succeeds exactly when the upstream head resolves and is an ancestor
/// of the marker.
pub proof fn lemma_unseen_matches_model(
    m: RepoModel,
    anc: spec_fn(Seq<char>, Seq<char>) -> bool,
    ok_seen: bool,
    ok_ancestor: bool,
)
    requires
        ok_seen <==> m.seen is Some,
        ok_seen ==> (ok_ancestor <==> (m.upstream is Some && anc(m.upstream->0, m.seen->0))),
    ensures
        unseen_answer(ok_seen, ok_ancestor) == model_unseen(m, anc),
{
}

/// Where a "has a diff" query stands.
#[derive(Clone, Copy)]
pub enum HasDiffStep {
    /// Test whether the review marker exists.
    CheckSeen,
    /// Read the commit ids of the marker and the upstream head.
    ReadIds,
}

/// Decides whether a repository carries a diff to review: a review
/// marker exists and points away from the upstream head.  A repository
/// never reviewed is reported through the unseen query instead, and a
/// failed id read (an unresolvable upstream) counts as no diff rather
/// than a failure.
pub struct HasDiffTask {
    /// The command about to run.
    pub step: HasDiffStep,
}

/// What a "has a diff" query asks of its caller next.
pub enum HasDiffNext {
    /// Run this command and feed the outcome back.
    Run(HasDiffTask, CmdRequest),
    /// The answer.
    Done(bool),
}

/// The final answer of the has-a-diff decision: the marker exists, the
/// id read succeeded, and its two lines differ.
pub open spec fn has_diff_answer(ok_seen: bool, rev: CmdOutcomeV) -> bool {
    ok_seen && rev.ok && line0(rev.stdout) != line1(rev.stdout)
}

impl HasDiffTask {
    /// Begins a "has a diff" query; the first command tests the marker.
    pub fn start() -> (r: (HasDiffTask, CmdRequest))
        ensures
            r.0.step is CheckSeen,
            r.1@.action is CheckSeen,
            r.1@.capture,
    {
        (HasDiffTask { step: HasDiffStep::CheckSeen }, CmdRequest {
            action: GitAction::CheckSeen,
            capture: true,
        })
    }

    /// Advances by one command outcome.  No marker means no diff; with
    /// a marker, the id read's first two output lines are compared.
    pub fn on_result(self, out: &CmdOutcome) -> (r: HasDiffNext)
        ensures
            self.step is CheckSeen && out.ok ==> (r matches HasDiffNext::Run(t2, req)
                && t2.step is ReadIds && req@.action is RevParseSeenUpstream && req@.capture),
            self.step is CheckSeen && !out.ok ==> (r matches HasDiffNext::Done(b) && !b),
            self.step is ReadIds ==> (r matches HasDiffNext::Done(b) && b == has_diff_answer(
                true,
                out@,
            )),
    {
        match self.step {
            HasDiffStep::CheckSeen => {
                if out.ok {
                    (HasDiffNext::Run(HasDiffTask { step: HasDiffStep::ReadIds }, CmdRequest {
                        action: GitAction::RevParseSeenUpstream,
                        capture: true,
                    }))
                } else {
                    HasDiffNext::Done(false)
                }
            },
            HasDiffStep::ReadIds => {
                if out.ok {
                    let (seen_id, upstream_id) = first_two_lines(out.stdout.as_str());
                    HasDiffNext::Done(!(seen_id == upstream_id))
                } else {
                    HasDiffNext::Done(false)
                }
            },
        }
    }
}

/// The has-a-diff decision answers exactly what the model holds, for
/// any outcomes that report the repository faithfully: the marker test
/// succeeds exactly when a marker exists; given one, the id read
/// succeeds exactly when the upstream resolves, and then prints the
/// marker's and the upstream's commit ids as its first two lines.
pub proof fn lemma_has_diff_matches_model(m: RepoModel, ok_seen: bool, rev: CmdOutcomeV)
    requires
        ok_seen <==> m.seen is Some,
        ok_seen ==> (rev.ok <==> m.upstream is Some),
        ok_seen && rev.ok ==> line0(rev.stdout) == m.seen->0 && line1(rev.stdout) == m.upstream->0,
    ensures
        has_diff_answer(ok_seen, rev) == model_has_diff(m),
{
}

/// Decides whether a repository needs a merge: its checked-out head
/// differs from a resolvable upstream head.  An unresolvable upstream
/// (a never-pushed or detached branch) counts as nothing to merge.
pub struct NeedsMergeTask {}

/// What a "needs a merge" query asks of its caller next.
pub enum NeedsMergeNext {
    /// The answer.
    Done(bool),
}

/// The final answer of the needs-a-merge decision: the id read
/// succeeded and its two lines differ.
pub open spec fn needs_merge_answer(rev: CmdOutcomeV) -> bool {
    rev.ok && line0(rev.stdout) != line1(rev.stdout)
}

impl NeedsMergeTask {
    /// Begins a "needs a merge" query; its single command reads the
    /// head's and the upstream's commit ids.
    pub fn start() -> (r: (NeedsMergeTask, CmdRequest))
        ensures
            r.1@.action is RevParseHeadUpstream,
            r.1@.capture,
    {
        (NeedsMergeTask {}, CmdRequest { action: GitAction::RevParseHeadUpstream, capture: true })
    }

    /// Answers from the id read's outcome: a failure (unresolvable
    /// upstream) means no merge, else the first two lines are compared.
    pub fn on_result(self, out: &CmdOutcome) -> (r: NeedsMergeNext)
        ensures
            r matches NeedsMergeNext::Done(b) && b == needs_merge_answer(out@),
    {
        if out.ok {
            let (head_id, upstream_id) = first_two_lines(out.stdout.as_str());
            NeedsMergeNext::Done(!(head_id == upstream_id))
        } else {
            NeedsMergeNext::Done(false)
        }
    }
}

/// The needs-a-merge decision answers exactly what the model holds, for
/// any outcome that reports the repository faithfully: the id read
/// succeeds exactly when the upstream resolves, and then prints the
/// head's and the upstream's commit ids as its first two lines.
pub proof fn lemma_needs_merge_matches_model(m: RepoModel, rev: CmdOutcomeV)
    requires
        rev.ok <==> m.upstream is Some,
        rev.ok ==> line0(rev.stdout) == m.head && line1(rev.stdout) == m.upstream->0,
    ensures
        needs_merge_answer(rev) == model_needs_merge(m),
{
}

/// The packages of `pkgs` whose mark is set, in order.
pub open spec fn selected(pkgs: Seq<Seq<char>>, marks: Seq<bool>) -> Seq<Seq<char>>
    recommends
        pkgs.len() == marks.len(),
    decreases pkgs.len(),
{
    if pkgs.len() == 0 || marks.len() == 0 {
        Seq::empty()
    } else {
        selected(pkgs.drop_last(), marks.drop_last()) + if marks.last() {
            seq![pkgs.last()]
        } else {
            Seq::empty()
        }
    }
}

/// Filters a package list by per-package answers (of the unseen,
/// has-a-diff or needs-a-merge queries), keeping order.
pub fn select_marked(pkgs: &Vec<String>, marks: &Vec<bool>) -> (r: Vec<String>)
    requires
        pkgs@.len() == marks@.len(),
    ensures
        r.deep_view() == selected(pkgs.deep_view(), marks@),
{
    let mut r: Vec<String> = Vec::new();
    proof {
        assert(r.deep_view() =~= selected(
            pkgs.deep_view().subrange(0, 0),
            marks@.subrange(0, 0),
        ));
    }
    let mut i: usize = 0;
    while i < pkgs.len()
        invariant
            0 <= i <= pkgs.len(),
            pkgs@.len() == marks@.len(),
            r.deep_view() == selected(
                pkgs.deep_view().subrange(0, i as int),
                marks@.subrange(0, i as int),
            ),
        decreases pkgs.len() - i,
    {
        let ghost old_dv = r.deep_view();
        if marks[i] {
            r.push(pkgs[i].clone());
        }
        proof {
            let pv = pkgs.deep_view();
            let mv = marks@;
            assert(pv.subrange(0, i + 1 as int).drop_last() =~= pv.subrange(0, i as int));
            assert(mv.subrange(0, i + 1 as int).drop_last() =~= mv.subrange(0, i as int));
            assert(pv.subrange(0, i + 1 as int).last() == pv[i as int]);
            assert(mv.subrange(0, i + 1 as int).last() == mv[i as int]);
            if mv[i as int] {
                assert(r@.len() == old_dv.len() + 1);
                assert(r.deep_view().len() == old_dv.len() + 1);
                assert(r.deep_view()[old_dv.len() as int] == r@[old_dv.len() as int]@);
            }
            assert(r.deep_view() =~= selected(
                pv.subrange(0, i + 1 as int),
                mv.subrange(0, i + 1 as int),
            ));
        }
        i = i + 1;
    }
    proof {
        assert(pkgs.deep_view().subrange(0, pkgs@.len() as int) =~= pkgs.deep_view());
        assert(marks@.subrange(0, marks@.len() as int) =~= marks@);
    }
    r
}

} // verus!
