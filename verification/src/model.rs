use vstd::prelude::*;

use crate::cmd::CmdOutcomeV;
use crate::diff::{diff_start_v, diff_step_spec, DiffNextV, DiffStep, DiffTaskV};
use crate::error::ErrorV;
use crate::fetch::FetchV;
use crate::text::trim_spec;

verus! {

/// The abstract state of one repository on disk, as far as the
/// operations of this crate read or change it: whether a clone exists,
/// which commit is checked out, where the review marker points (absent
/// when never reviewed), and where the fetched upstream head points
/// (absent when it cannot be resolved).
pub struct RepoModel {
    pub present: bool,
    pub head: Seq<char>,
    pub seen: Option<Seq<char>>,
    pub upstream: Option<Seq<char>>,
}

/// What "has a diff" answers over the model: a review marker exists and
/// points away from a resolvable upstream head.  An unresolvable
/// upstream counts as no diff rather than a failure.
pub open spec fn model_has_diff(m: RepoModel) -> bool {
    m.seen is Some && m.upstream is Some && m.seen->0 != m.upstream->0
}

/// What "unseen" answers over the model, given the ancestry relation
/// `anc` of the repository's history: unreviewed, or the upstream head
/// cannot be resolved, or it is no ancestor of the review marker.
pub open spec fn model_unseen(m: RepoModel, anc: spec_fn(Seq<char>, Seq<char>) -> bool) -> bool {
    ||| m.seen is None
    ||| m.upstream is None
    ||| !anc(m.upstream->0, m.seen->0)
}

/// What "needs a merge" answers over the model: a resolvable upstream
/// head that differs from the checked-out head.  An unresolvable
/// upstream counts as nothing to merge.
pub open spec fn model_needs_merge(m: RepoModel) -> bool {
    m.upstream is Some && m.upstream->0 != m.head
}

/// Marking seen moves the review marker to the checked-out head and
/// changes nothing else.
pub open spec fn model_mark_seen(m: RepoModel) -> RepoModel {
    RepoModel { seen: Some(m.head), ..m }
}

/// Clone-or-fetch against a remote whose head is `remote`: an existing
/// clone only has its upstream pointer moved and reports "already
/// present"; a missing one appears checked out at the remote head,
/// never reviewed.
pub open spec fn model_fetch(m: RepoModel, remote: Seq<char>) -> (RepoModel, bool) {
    if m.present {
        (RepoModel { upstream: Some(remote), ..m }, true)
    } else {
        (
            RepoModel {
                present: true,
                head: remote,
                seen: None,
                upstream: Some(remote),
            },
            false,
        )
    }
}

/// Seen monotonicity: marking a repository seen while it is checked out
/// at its upstream head clears both "has a diff" and "unseen", and they
/// stay clear until a fetch moves the upstream pointer.  The ancestry
/// relation only needs to be reflexive.
pub proof fn lemma_mark_seen_clears(m: RepoModel, anc: spec_fn(Seq<char>, Seq<char>) -> bool)
    requires
        m.upstream == Some(m.head),
        forall|x: Seq<char>| #[trigger] anc(x, x),
    ensures
        !model_has_diff(model_mark_seen(m)),
        !model_unseen(model_mark_seen(m), anc),
{
}

/// Fetch idempotence: a second clone-or-fetch against an unchanged
/// remote leaves the repository exactly as the first left it, and
/// reports it as already present.
pub proof fn lemma_fetch_idempotent(m: RepoModel, remote: Seq<char>)
    ensures
        model_fetch(model_fetch(m, remote).0, remote).0 == model_fetch(m, remote).0,
        model_fetch(model_fetch(m, remote).0, remote).1,
{
}

/// How one step of the diff machine may change the repository, and what
/// its outcome can report.  Reads change nothing and report what the
/// model holds; a successful reset moves the head to its target; a
/// failed reset leaves the head unconstrained; the non-committing merge
/// never moves the head.
pub open spec fn diff_step_model(
    m: RepoModel,
    t: DiffTaskV,
    out: CmdOutcomeV,
    m2: RepoModel,
) -> bool {
    match t.step {
        DiffStep::QueryHead => m2 == m && (out.ok ==> trim_spec(out.stdout) == m.head),
        DiffStep::CheckSeen => m2 == m && (out.ok <==> m.seen is Some),
        DiffStep::ResetToSeen => if out.ok {
            m.seen is Some && m2 == (RepoModel { head: m.seen->0, ..m })
        } else {
            m2.present == m.present && m2.seen == m.seen && m2.upstream == m.upstream
        },
        DiffStep::MergeUpstream => m2.present == m.present && m2.head == m.head && m2.seen
            == m.seen && m2.upstream == m.upstream,
        DiffStep::DiffSeen => m2 == m,
        DiffStep::DiffEmpty => m2 == m,
        DiffStep::Restore => if out.ok {
            m2 == (RepoModel { head: t.saved_head, ..m })
        } else {
            m2.present == m.present && m2.seen == m.seen && m2.upstream == m.upstream
        },
    }
}

/// A diff machine part-way through a sequence of outcomes: still
/// running, or finished with its result.
pub enum DiffRunV {
    Running(DiffTaskV),
    Finished(Result<Seq<char>, ErrorV>),
}

/// The machine obtained by feeding `outs` to `t0`, outcome by outcome.
/// Outcomes beyond the machine's end change nothing.
pub open spec fn diff_run(conf: FetchV, t0: DiffTaskV, outs: Seq<CmdOutcomeV>) -> DiffRunV
    decreases outs.len(),
{
    if outs.len() == 0 {
        DiffRunV::Running(t0)
    } else {
        match diff_run(conf, t0, outs.drop_last()) {
            DiffRunV::Running(t) => match diff_step_spec(conf, t, outs.last()) {
                DiffNextV::Run(t2, _) => DiffRunV::Running(t2),
                DiffNextV::Done(res) => DiffRunV::Finished(res),
            },
            DiffRunV::Finished(res) => DiffRunV::Finished(res),
        }
    }
}

/// No restoring reset failed along the run.
pub open spec fn diff_run_clean(conf: FetchV, t0: DiffTaskV, outs: Seq<CmdOutcomeV>) -> bool
    decreases outs.len(),
{
    if outs.len() == 0 {
        true
    } else {
        diff_run_clean(conf, t0, outs.drop_last()) && match diff_run(conf, t0, outs.drop_last()) {
            DiffRunV::Running(t) => !(t.step is Restore && !outs.last().ok),
            DiffRunV::Finished(_) => true,
        }
    }
}

/// Step `i` of the trace is one the model semantics allows: `ms[i + 1]`
/// follows from `ms[i]` by the command the machine ran at `i`, and a
/// machine already finished changes nothing further.
pub open spec fn diff_trace_step_ok(
    conf: FetchV,
    t0: DiffTaskV,
    outs: Seq<CmdOutcomeV>,
    ms: Seq<RepoModel>,
    i: int,
) -> bool
    recommends
        0 <= i < outs.len(),
        ms.len() == outs.len() + 1,
{
    match diff_run(conf, t0, outs.subrange(0, i)) {
        DiffRunV::Running(t) => diff_step_model(ms[i], t, outs[i], ms[i + 1]),
        DiffRunV::Finished(_) => ms[i + 1] == ms[i],
    }
}

/// The models `ms` track the run of the machine over `outs`.
pub open spec fn diff_trace_ok(
    conf: FetchV,
    t0: DiffTaskV,
    outs: Seq<CmdOutcomeV>,
    ms: Seq<RepoModel>,
) -> bool {
    &&& ms.len() == outs.len() + 1
    &&& forall|i: int| 0 <= i < outs.len() ==> #[trigger] diff_trace_step_ok(conf, t0, outs, ms, i)
}

/// The head bookkeeping the machine maintains: once the head query has
/// answered, the saved head is the head the repository started with.
pub open spec fn diff_head_inv(t: DiffTaskV, h0: Seq<char>, m: RepoModel) -> bool {
    match t.step {
        DiffStep::QueryHead => m.head == h0,
        DiffStep::CheckSeen => m.head == h0 && t.saved_head == h0,
        _ => t.saved_head == h0,
    }
}

/// One step of the machine keeps [`diff_head_inv`], and a finishing
/// step leaves the head where it started — except the single case of a
/// restoring reset that itself failed.
proof fn lemma_diff_step_head(
    conf: FetchV,
    t: DiffTaskV,
    h0: Seq<char>,
    m: RepoModel,
    out: CmdOutcomeV,
    m2: RepoModel,
)
    requires
        diff_head_inv(t, h0, m),
        diff_step_model(m, t, out, m2),
    ensures
        match diff_step_spec(conf, t, out) {
            DiffNextV::Run(t2, _) => diff_head_inv(t2, h0, m2),
            DiffNextV::Done(_) => (t.step is Restore && !out.ok) || m2.head == h0,
        },
{
}

/// Diff non-corruption: however a diff computation runs — along the
/// reviewed-merge path or the empty-tree path, succeeding or failing at
/// any command — a finished machine leaves the checked-out head exactly
/// where it started, provided no restoring reset itself failed.
pub proof fn lemma_diff_preserves_head(
    conf: FetchV,
    t0: DiffTaskV,
    outs: Seq<CmdOutcomeV>,
    ms: Seq<RepoModel>,
)
    requires
        t0.step is QueryHead,
        diff_trace_ok(conf, t0, outs, ms),
        diff_run_clean(conf, t0, outs),
    ensures
        diff_run(conf, t0, outs) matches DiffRunV::Running(t) ==> diff_head_inv(
            t,
            ms[0].head,
            ms.last(),
        ),
        diff_run(conf, t0, outs) is Finished ==> ms.last().head == ms[0].head,
    decreases outs.len(),
{
    if outs.len() == 0 {
    } else {
        let n = outs.len() - 1;
        let outs2 = outs.drop_last();
        let ms2 = ms.drop_last();
        assert(diff_trace_ok(conf, t0, outs2, ms2)) by {
            assert forall|i: int| 0 <= i < outs2.len() implies #[trigger] diff_trace_step_ok(
                conf,
                t0,
                outs2,
                ms2,
                i,
            ) by {
                assert(outs2.subrange(0, i) =~= outs.subrange(0, i));
                assert(diff_trace_step_ok(conf, t0, outs, ms, i));
            }
        }
        lemma_diff_preserves_head(conf, t0, outs2, ms2);
        assert(outs.subrange(0, n) =~= outs2);
        assert(diff_trace_step_ok(conf, t0, outs, ms, n));
        match diff_run(conf, t0, outs2) {
            DiffRunV::Running(t) => {
                lemma_diff_step_head(conf, t, ms[0].head, ms[n], outs[n], ms[n + 1]);
            },
            DiffRunV::Finished(_) => {},
        }
    }
}

/// The reviewed path: with a review marker in place, a run whose
/// commands succeed walks the head query, the marker check, the reset
/// to the marker, the staging merge, the staged diff and the restoring
/// reset; it finishes with precisely what the staged diff printed, and
/// leaves the checked-out head where it started.
pub proof fn lemma_reviewed_diff_is_staged(
    conf: FetchV,
    pkg: Seq<char>,
    color: bool,
    stream: bool,
    outs: Seq<CmdOutcomeV>,
    ms: Seq<RepoModel>,
)
    requires
        outs.len() == 6,
        diff_trace_ok(conf, diff_start_v(pkg, color, stream), outs, ms),
        ms[0].seen is Some,
        outs[0].ok,
        outs[2].ok,
        outs[3].ok,
        outs[4].ok,
        outs[5].ok,
    ensures
        diff_run(conf, diff_start_v(pkg, color, stream), outs.subrange(0, 4)) matches
            DiffRunV::Running(t) && t.step is DiffSeen,
        diff_run(conf, diff_start_v(pkg, color, stream), outs) == DiffRunV::Finished(
            Result::<Seq<char>, ErrorV>::Ok(outs[4].stdout),
        ),
        ms[6].head == ms[0].head,
{
    let t0 = diff_start_v(pkg, color, stream);
    assert(outs.subrange(0, 0) =~= Seq::<CmdOutcomeV>::empty());
    assert(diff_run(conf, t0, outs.subrange(0, 0)) == DiffRunV::Running(t0));

    // step 0: the head query succeeds and the trimmed head is saved
    assert(diff_trace_step_ok(conf, t0, outs, ms, 0));
    assert(diff_step_model(ms[0], t0, outs[0], ms[1]));
    let s1 = outs.subrange(0, 1);
    assert(s1.drop_last() =~= outs.subrange(0, 0));
    assert(s1.last() == outs[0]);
    let t1 = DiffTaskV { step: DiffStep::CheckSeen, saved_head: trim_spec(outs[0].stdout), ..t0 };
    assert(diff_run(conf, t0, s1) == DiffRunV::Running(t1));

    // step 1: the marker check answers "present"
    assert(diff_trace_step_ok(conf, t0, outs, ms, 1));
    assert(diff_step_model(ms[1], t1, outs[1], ms[2]));
    assert(ms[1] == ms[0]);
    assert(outs[1].ok);
    let s2 = outs.subrange(0, 2);
    assert(s2.drop_last() =~= s1);
    assert(s2.last() == outs[1]);
    let t2 = DiffTaskV { step: DiffStep::ResetToSeen, ..t1 };
    assert(diff_run(conf, t0, s2) == DiffRunV::Running(t2));

    // step 2: the working tree moves to the marker
    assert(diff_trace_step_ok(conf, t0, outs, ms, 2));
    assert(diff_step_model(ms[2], t2, outs[2], ms[3]));
    let s3 = outs.subrange(0, 3);
    assert(s3.drop_last() =~= s2);
    assert(s3.last() == outs[2]);
    let t3 = DiffTaskV { step: DiffStep::MergeUpstream, ..t2 };
    assert(diff_run(conf, t0, s3) == DiffRunV::Running(t3));

    // step 3: the staging merge succeeds without moving the head
    assert(diff_trace_step_ok(conf, t0, outs, ms, 3));
    assert(diff_step_model(ms[3], t3, outs[3], ms[4]));
    let s4 = outs.subrange(0, 4);
    assert(s4.drop_last() =~= s3);
    assert(s4.last() == outs[3]);
    let t4 = DiffTaskV { step: DiffStep::DiffSeen, ..t3 };
    assert(diff_run(conf, t0, s4) == DiffRunV::Running(t4));

    // step 4: the staged diff succeeds and its output is kept
    assert(diff_trace_step_ok(conf, t0, outs, ms, 4));
    assert(diff_step_model(ms[4], t4, outs[4], ms[5]));
    let s5 = outs.subrange(0, 5);
    assert(s5.drop_last() =~= s4);
    assert(s5.last() == outs[4]);
    let t5 = DiffTaskV { step: DiffStep::Restore, diff_text: outs[4].stdout, ..t4 };
    assert(diff_run(conf, t0, s5) == DiffRunV::Running(t5));

    // step 5: the restoring reset succeeds
    assert(diff_trace_step_ok(conf, t0, outs, ms, 5));
    assert(diff_step_model(ms[5], t5, outs[5], ms[6]));
    let s6 = outs.subrange(0, 6);
    assert(s6 =~= outs);
    assert(s6.drop_last() =~= s5);
    assert(s6.last() == outs[5]);
    assert(diff_run(conf, t0, outs) == DiffRunV::Finished(
        Result::<Seq<char>, ErrorV>::Ok(outs[4].stdout),
    ));

    // the heads: only the two resets moved it, and the second put back
    // the saved answer of the head query
    assert(ms[2] == ms[1]);
    assert(ms[4].head == ms[3].head);
    assert(ms[5] == ms[4]);
    assert(t5.saved_head == trim_spec(outs[0].stdout));
    assert(trim_spec(outs[0].stdout) == ms[0].head);
    assert(ms[6].head == ms[0].head);
}

/// The never-reviewed boundary: with no review marker, a run whose head
/// query, diff and restoring reset succeed walks exactly the head
/// query, the marker check, the empty-tree diff and the restoring
/// reset, finishes with precisely what the diff command printed, and
/// leaves the checked-out head where it started.
pub proof fn lemma_never_reviewed_empty_tree_diff(
    conf: FetchV,
    pkg: Seq<char>,
    color: bool,
    stream: bool,
    outs: Seq<CmdOutcomeV>,
    ms: Seq<RepoModel>,
)
    requires
        outs.len() == 4,
        diff_trace_ok(conf, diff_start_v(pkg, color, stream), outs, ms),
        ms[0].seen is None,
        outs[0].ok,
        outs[2].ok,
        outs[3].ok,
    ensures
        diff_run(conf, diff_start_v(pkg, color, stream), outs.subrange(0, 2)) matches
            DiffRunV::Running(t) && t.step is DiffEmpty,
        diff_run(conf, diff_start_v(pkg, color, stream), outs) == DiffRunV::Finished(
            Result::<Seq<char>, ErrorV>::Ok(outs[2].stdout),
        ),
        ms[4].head == ms[0].head,
{
    let t0 = diff_start_v(pkg, color, stream);
    assert(outs.subrange(0, 0) =~= Seq::<CmdOutcomeV>::empty());
    assert(diff_run(conf, t0, outs.subrange(0, 0)) == DiffRunV::Running(t0));

    // step 0: the head query succeeds, the model is unchanged and the
    // machine saves the trimmed head
    assert(diff_trace_step_ok(conf, t0, outs, ms, 0));
    assert(diff_step_model(ms[0], t0, outs[0], ms[1]));
    let s1 = outs.subrange(0, 1);
    assert(s1.drop_last() =~= outs.subrange(0, 0));
    assert(s1.last() == outs[0]);
    let t1 = DiffTaskV { step: DiffStep::CheckSeen, saved_head: trim_spec(outs[0].stdout), ..t0 };
    assert(diff_run(conf, t0, s1) == DiffRunV::Running(t1));

    // step 1: the marker check answers "absent"
    assert(diff_trace_step_ok(conf, t0, outs, ms, 1));
    assert(diff_step_model(ms[1], t1, outs[1], ms[2]));
    assert(ms[1] == ms[0]);
    assert(!outs[1].ok);
    let s2 = outs.subrange(0, 2);
    assert(s2.drop_last() =~= s1);
    assert(s2.last() == outs[1]);
    let t2 = DiffTaskV { step: DiffStep::DiffEmpty, ..t1 };
    assert(diff_run(conf, t0, s2) == DiffRunV::Running(t2));

    // step 2: the empty-tree diff succeeds and its output is kept
    assert(diff_trace_step_ok(conf, t0, outs, ms, 2));
    assert(diff_step_model(ms[2], t2, outs[2], ms[3]));
    let s3 = outs.subrange(0, 3);
    assert(s3.drop_last() =~= s2);
    assert(s3.last() == outs[2]);
    let t3 = DiffTaskV { step: DiffStep::Restore, diff_text: outs[2].stdout, ..t2 };
    assert(diff_run(conf, t0, s3) == DiffRunV::Running(t3));

    // step 3: the restoring reset succeeds and the saved head returns
    assert(diff_trace_step_ok(conf, t0, outs, ms, 3));
    assert(diff_step_model(ms[3], t3, outs[3], ms[4]));
    let s4 = outs.subrange(0, 4);
    assert(s4 =~= outs);
    assert(s4.drop_last() =~= s3);
    assert(s4.last() == outs[3]);
    assert(diff_run(conf, t0, outs) == DiffRunV::Finished(
        Result::<Seq<char>, ErrorV>::Ok(outs[2].stdout),
    ));

    // the heads: nothing before the reset moved it, and the reset put
    // back the trimmed answer of the head query, which was the head
    assert(ms[2] == ms[1]);
    assert(ms[3] == ms[2]);
    assert(t3.saved_head == trim_spec(outs[0].stdout));
    assert(trim_spec(outs[0].stdout) == ms[0].head);
    assert(ms[4].head == ms[0].head);
}

} // verus!
