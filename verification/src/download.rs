use vstd::prelude::*;

use crate::callback::{Callback, CallbackV};
use crate::cmd::{CmdRequest, GitActionV};
use crate::error::{Error, ErrorV};
use crate::fetch::Repo;
use crate::text::{trim, trim_spec};

verus! {

/// The most workers a download batch spreads over.
pub const MAX_WORKERS: usize = 20;

/// How many completion events the results queue holds before workers
/// back off; bounded so that a slow consumer exerts backpressure.
pub const EVENT_QUEUE_BOUND: usize = 32;

/// How many workers a batch of `n` repositories gets: the fixed limit,
/// capped by the batch size (a worker per repository at most).
pub fn worker_count(n: usize) -> (r: usize)
    ensures
        r <= MAX_WORKERS,
        r <= n,
        r == if n < MAX_WORKERS {
            n as int
        } else {
            MAX_WORKERS as int
        },
{
    if n < MAX_WORKERS {
        n
    } else {
        MAX_WORKERS
    }
}

/// How one repository was brought up to date.  A fresh clone can never
/// need a merge afterwards; only an already-present repository that was
/// fetched may.
#[derive(Clone, Copy)]
pub enum FetchKind {
    /// The repository did not exist locally and was cloned.
    Cloned,
    /// The repository already existed and its remote was fetched.
    Fetched,
}

/// The single download command of one repository: a fetch inside an
/// existing clone, a clone of the remote otherwise.  The second part
/// says which of the two it was.
pub fn download_request(repo: &Repo, present: bool) -> (r: (CmdRequest, FetchKind))
    ensures
        present ==> r.0@.action is FetchRemote && r.1 is Fetched,
        !present ==> (r.0@.action matches GitActionV::Clone { url, name } && url == repo@.url
            && name == repo@.name) && r.1 is Cloned,
        r.0@.capture,
{
    if present {
        (
            CmdRequest { action: crate::cmd::GitAction::FetchRemote, capture: true },
            FetchKind::Fetched,
        )
    } else {
        (
            CmdRequest {
                action: crate::cmd::GitAction::Clone {
                    url: repo.url.clone(),
                    name: repo.name.clone(),
                },
                capture: true,
            },
            FetchKind::Cloned,
        )
    }
}

/// One completed unit of download work, in completion order.
pub struct FetchDone {
    /// The package that completed.
    pub name: String,
    /// Whether it was cloned fresh or fetched in place.
    pub kind: FetchKind,
    /// What the download command reported (its progress channel).
    pub output: String,
}

/// Mathematical image of a [`FetchDone`].
pub struct FetchDoneV {
    pub name: Seq<char>,
    pub kind: FetchKind,
    pub output: Seq<char>,
}

impl View for FetchDone {
    type V = FetchDoneV;

    open spec fn view(&self) -> FetchDoneV {
        FetchDoneV { name: self.name@, kind: self.kind, output: self.output@ }
    }
}

impl DeepView for FetchDone {
    type V = FetchDoneV;

    open spec fn deep_view(&self) -> FetchDoneV {
        self@
    }
}

/// One event a download worker hands to the consumer: a completed unit
/// of work, or the failure that cancels the batch.
pub enum FetchEvent {
    Done(FetchDone),
    Failed(Error),
}

/// Mathematical image of a [`FetchEvent`].
pub enum FetchEventV {
    Done(FetchDoneV),
    Failed(ErrorV),
}

impl View for FetchEvent {
    type V = FetchEventV;

    open spec fn view(&self) -> FetchEventV {
        match self {
            FetchEvent::Done(d) => FetchEventV::Done(d@),
            FetchEvent::Failed(e) => FetchEventV::Failed(e@),
        }
    }
}

impl DeepView for FetchEvent {
    type V = FetchEventV;

    open spec fn deep_view(&self) -> FetchEventV {
        self@
    }
}

/// The consumer side of a download batch: it absorbs completion events
/// in arrival order, numbers them from one, and accumulates the
/// packages that were already present.
pub struct Progress {
    /// How many units of work have completed.
    pub completed: usize,
    /// The packages that were fetched rather than cloned, in completion
    /// order.
    pub fetched: Vec<String>,
}

impl Progress {
    /// An empty consumer: nothing completed yet.
    pub fn new() -> (r: Progress)
        ensures
            r.completed == 0,
            r.fetched@.len() == 0,
    {
        let p = Progress { completed: 0, fetched: Vec::new() };
        p
    }

    /// Absorbs one completed unit of work: the completion counter goes
    /// up by exactly one, the callback record carries the package, the
    /// new counter value and the trimmed output, and the package joins
    /// the already-present list exactly when it was fetched in place.
    pub fn absorb(&mut self, d: FetchDone) -> (cb: Callback)
        requires
            old(self).completed < usize::MAX,
        ensures
            final(self).completed == old(self).completed + 1,
            cb@.n == final(self).completed,
            cb@.pkg == d@.name,
            cb@.output == trim_spec(d@.output),
            d@.kind is Fetched ==> final(self).fetched.deep_view() == old(
                self,
            ).fetched.deep_view().push(d@.name),
            d@.kind is Cloned ==> final(self).fetched.deep_view() == old(
                self,
            ).fetched.deep_view(),
    {
        self.completed = self.completed + 1;
        let output = trim(d.output.as_str());
        let cb = Callback { pkg: d.name.clone(), n: self.completed, output };
        match d.kind {
            FetchKind::Fetched => {
                let ghost old_dv = self.fetched.deep_view();
                self.fetched.push(d.name);
                proof {
                    assert(self.fetched.deep_view() =~= old_dv.push(d@.name));
                }
            },
            FetchKind::Cloned => {},
        }
        cb
    }
}

/// Index of the first failure among the events, or their number when
/// every one succeeded.
pub open spec fn first_failure(es: Seq<FetchEventV>) -> int
    decreases es.len(),
{
    if es.len() == 0 {
        0
    } else if es[0] is Failed {
        0
    } else {
        1 + first_failure(es.subrange(1, es.len() as int))
    }
}

/// `first_failure` is the unique cut between completed events and a
/// failure (or the end).
proof fn lemma_first_failure_is(es: Seq<FetchEventV>, i: int)
    requires
        0 <= i <= es.len(),
        forall|k: int| 0 <= k < i ==> !(es[k] is Failed),
        i < es.len() ==> es[i] is Failed,
    ensures
        first_failure(es) == i,
    decreases i,
{
    if i == 0 {
    } else {
        let t = es.subrange(1, es.len() as int);
        assert(forall|k: int| 0 <= k < i - 1 ==> !(t[k] is Failed));
        lemma_first_failure_is(t, i - 1);
    }
}

/// The names of the events that report a fetch of an already-present
/// repository, in order.
pub open spec fn fetched_names(es: Seq<FetchEventV>) -> Seq<Seq<char>>
    decreases es.len(),
{
    if es.len() == 0 {
        Seq::empty()
    } else {
        fetched_names(es.drop_last()) + match es.last() {
            FetchEventV::Done(d) => if d.kind is Fetched {
                seq![d.name]
            } else {
                Seq::empty()
            },
            FetchEventV::Failed(_) => Seq::empty(),
        }
    }
}

/// Drains a download batch's events in arrival order: every completed
/// unit before the first failure becomes a numbered callback record;
/// the first failure ends the batch with that error and the
/// already-present list is discarded; with no failure, the packages
/// that were already present come back in completion order.
pub fn drain_events(events: &Vec<FetchEvent>) -> (r: (Vec<Callback>, Result<Vec<String>, Error>))
    ensures
        r.0.deep_view().len() == first_failure(events.deep_view()),
        forall|i: int|
            0 <= i < first_failure(events.deep_view()) ==> (#[trigger] events.deep_view()[i]
                matches FetchEventV::Done(d) && r.0.deep_view()[i].n == i + 1
                && r.0.deep_view()[i].pkg == d.name && r.0.deep_view()[i].output == trim_spec(
                d.output,
            )),
        first_failure(events.deep_view()) == events.deep_view().len() ==> (r.1 matches Ok(v)
            && v.deep_view() == fetched_names(events.deep_view())),
        first_failure(events.deep_view()) < events.deep_view().len() ==> (r.1 matches Err(e)
            && events.deep_view()[first_failure(events.deep_view())] == FetchEventV::Failed(e@)),
{
    let ghost orig = events.deep_view();
    let mut cbs: Vec<Callback> = Vec::new();
    let mut prog = Progress::new();
    let total = events.len();
    let mut i: usize = 0;
    proof {
        assert(cbs.deep_view() =~= Seq::<CallbackV>::empty());
        assert(prog.fetched.deep_view() =~= Seq::<Seq<char>>::empty());
        assert(fetched_names(orig.subrange(0, 0)) =~= Seq::<Seq<char>>::empty());
    }
    while i < total
        invariant
            0 <= i <= total,
            total == events@.len(),
            orig == events.deep_view(),
            orig.len() == total,
            prog.completed == i,
            cbs.deep_view().len() == i,
            forall|k: int| 0 <= k < i ==> !(orig[k] is Failed),
            forall|k: int|
                0 <= k < i ==> (#[trigger] orig[k] matches FetchEventV::Done(d)
                    && cbs.deep_view()[k].n == k + 1 && cbs.deep_view()[k].pkg == d.name
                    && cbs.deep_view()[k].output == trim_spec(d.output)),
            prog.fetched.deep_view() == fetched_names(orig.subrange(0, i as int)),
        decreases total - i,
    {
        let ev = &events[i];
        proof {
            assert(ev@ == orig[i as int]);
        }
        match ev {
            FetchEvent::Done(d) => {
                let ghost old_cbs = cbs.deep_view();
                let item = FetchDone {
                    name: d.name.clone(),
                    kind: d.kind,
                    output: d.output.clone(),
                };
                proof {
                    assert(item@ == d@);
                }
                let cb = prog.absorb(item);
                cbs.push(cb);
                proof {
                    assert(cbs@.len() == old_cbs.len() + 1);
                    assert(cbs.deep_view().len() == old_cbs.len() + 1);
                    assert(forall|k: int|
                        0 <= k < i ==> #[trigger] cbs.deep_view()[k] == old_cbs[k]);
                    assert(cbs.deep_view()[i as int] == cb@);
                    let pre = orig.subrange(0, i + 1 as int);
                    assert(pre.drop_last() =~= orig.subrange(0, i as int));
                    assert(pre.last() == orig[i as int]);
                    assert(prog.fetched.deep_view() == fetched_names(pre));
                }
            },
            FetchEvent::Failed(e) => {
                let err = e.clone();
                proof {
                    assert(orig[i as int] == FetchEventV::Failed(err@));
                    lemma_first_failure_is(orig, i as int);
                }
                return (cbs, Err(err));
            },
        }
        i = i + 1;
    }
    proof {
        lemma_first_failure_is(orig, total as int);
        assert(orig.subrange(0, total as int) =~= orig);
    }
    (cbs, Ok(prog.fetched))
}

} // verus!
