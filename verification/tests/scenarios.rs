use aur_fetch::{
    download_request, drain_events, CmdOutcome, DiffNext, DiffTask, Fetch, FetchDone,
    FetchEvent, FetchKind, HasDiffNext, HasDiffTask, MergeNext, MergeTask, NeedsMergeNext,
    NeedsMergeTask, Repo, UnseenNext, UnseenTask,
};

fn handle() -> Fetch {
    Fetch {
        clone_dir: "/c".to_string(),
        diff_dir: "/d".to_string(),
        git: "git".to_string(),
        git_flags: vec![],
        aur_url: "https://aur.archlinux.org".to_string(),
    }
}

fn ok(stdout: &str) -> CmdOutcome {
    CmdOutcome { ok: true, stdout: stdout.to_string(), stderr: String::new() }
}

fn err(stderr: &str) -> CmdOutcome {
    CmdOutcome { ok: false, stdout: String::new(), stderr: stderr.to_string() }
}

/// A fresh clone is never reported as already present, so it is never a
/// merge candidate; and right after the clone its head sits on the
/// upstream head, so nothing needs merging.
#[test]
fn fresh_clone_needs_no_merge() {
    let f = handle();
    let repos = f.repos_for_pkgs(&vec!["pkg-a".to_string()]).expect("well-formed base");
    // pkg-a does not exist locally: the download is a clone
    let (_req, kind) = download_request(&repos[0], false);
    assert!(matches!(kind, FetchKind::Cloned));

    // the batch completes; the already-present list is empty
    let events = vec![FetchEvent::Done(FetchDone {
        name: "pkg-a".to_string(),
        kind,
        output: "Cloning into 'pkg-a'...\n".to_string(),
    })];
    let (cbs, res) = drain_events(&events);
    assert_eq!(cbs.len(), 1);
    assert_eq!(res.expect("no failure"), Vec::<String>::new());

    // head and upstream coincide after the clone
    let (t, _) = NeedsMergeTask::start();
    assert!(matches!(t.on_result(&ok("abc123\nabc123\n")), NeedsMergeNext::Done(false)));
}

/// An existing clone whose upstream moved: the download reports it as
/// already present, it needs a merge, and after the merge it does not.
#[test]
fn existing_clone_with_upstream_change_merges() {
    let f = handle();
    let repo = Repo {
        url: "https://aur.archlinux.org/pkg-b".to_string(),
        name: "pkg-b".to_string(),
    };
    let (_req, kind) = download_request(&repo, true);
    assert!(matches!(kind, FetchKind::Fetched));

    let events = vec![FetchEvent::Done(FetchDone {
        name: "pkg-b".to_string(),
        kind,
        output: "From https://aur.archlinux.org/pkg-b\n".to_string(),
    })];
    let (_cbs, res) = drain_events(&events);
    assert_eq!(res.expect("no failure"), vec!["pkg-b"]);

    // upstream holds one commit the local head lacks
    let (t, _) = NeedsMergeTask::start();
    assert!(matches!(t.on_result(&ok("abc123\ndef456\n")), NeedsMergeNext::Done(true)));

    // the merge rebases onto the upstream
    let (t, _) = MergeTask::start("pkg-b".to_string());
    let (t, _) = match t.on_result(&f, &ok("")) {
        MergeNext::Run(t, req) => (t, req),
        MergeNext::Done(_) => panic!("expected the branch test"),
    };
    let (t, _) = match t.on_result(&f, &ok("refs/heads/master\n")) {
        MergeNext::Run(t, req) => (t, req),
        MergeNext::Done(_) => panic!("expected the rebase"),
    };
    assert!(matches!(t.on_result(&f, &ok("")), MergeNext::Done(Ok(_))));

    // after the merge the heads coincide
    let (t, _) = NeedsMergeTask::start();
    assert!(matches!(t.on_result(&ok("def456\ndef456\n")), NeedsMergeNext::Done(false)));
}

/// A batch of ten where the third completion fails: the failure
/// surfaces as the batch's result and only the work drained before it
/// was reported.
#[test]
fn batch_failure_cancels_the_rest() {
    let mut events = Vec::new();
    for i in 0..2 {
        events.push(FetchEvent::Done(FetchDone {
            name: format!("pkg-{}", i),
            kind: FetchKind::Fetched,
            output: String::new(),
        }));
    }
    events.push(FetchEvent::Failed(aur_fetch::Error::CommandFailed(
        aur_fetch::CommandFailed {
            dir: "/c".to_string(),
            command: "git".to_string(),
            args: vec![
                "clone".to_string(),
                "--no-progress".to_string(),
                "--".to_string(),
                "https://aur.archlinux.org/pkg-2".to_string(),
                "pkg-2".to_string(),
            ],
            stderr: Some("fatal: repository not found".to_string()),
        },
    )));
    // work already in flight still completes and is queued after the failure
    for i in 3..10 {
        events.push(FetchEvent::Done(FetchDone {
            name: format!("pkg-{}", i),
            kind: FetchKind::Fetched,
            output: String::new(),
        }));
    }
    let (cbs, res) = drain_events(&events);
    assert_eq!(cbs.len(), 2);
    match res {
        Err(aur_fetch::Error::CommandFailed(fail)) => {
            assert_eq!(fail.stderr.as_deref(), Some("fatal: repository not found"));
        },
        _ => panic!("the batch must fail"),
    }
}

/// The review cycle: a marker at X with upstream at Y is unseen and has
/// a diff; the diff covers X to Y; after marking seen at Y nothing is
/// left to review.
#[test]
fn review_cycle() {
    let f = handle();

    // upstream moved past the marker: unseen
    let (t, _) = UnseenTask::start();
    let (t, _) = match t.on_result(&ok("")) {
        UnseenNext::Run(t, req) => (t, req),
        UnseenNext::Done(_) => panic!("expected the ancestry test"),
    };
    assert!(matches!(t.on_result(&err("")), UnseenNext::Done(true)));

    // marker X, upstream Y: a diff to review
    let (t, _) = HasDiffTask::start();
    let (t, _) = match t.on_result(&ok("")) {
        HasDiffNext::Run(t, req) => (t, req),
        HasDiffNext::Done(_) => panic!("expected the id read"),
    };
    assert!(matches!(t.on_result(&ok("X\nY\n")), HasDiffNext::Done(true)));

    // the diff walks the reviewed-merge path and captures the changes
    let (t, _) = DiffTask::start("pkg-c".to_string(), false, false);
    let (t, _) = match t.on_result(&f, &ok("X\n")) {
        DiffNext::Run(t, req) => (t, req),
        DiffNext::Done(_) => panic!("expected the marker check"),
    };
    let (t, _) = match t.on_result(&f, &ok("")) {
        DiffNext::Run(t, req) => (t, req),
        DiffNext::Done(_) => panic!("expected the reset to the marker"),
    };
    let (t, _) = match t.on_result(&f, &ok("")) {
        DiffNext::Run(t, req) => (t, req),
        DiffNext::Done(_) => panic!("expected the staging merge"),
    };
    let (t, _) = match t.on_result(&f, &ok("")) {
        DiffNext::Run(t, req) => (t, req),
        DiffNext::Done(_) => panic!("expected the staged diff"),
    };
    let (t, req) = match t.on_result(&f, &ok("changes between X and Y")) {
        DiffNext::Run(t, req) => (t, req),
        DiffNext::Done(_) => panic!("expected the restoring reset"),
    };
    // the repository comes back to the head it started on
    assert_eq!(aur_fetch::action_args(&req.action), vec!["reset", "--hard", "X"]);
    match t.on_result(&f, &ok("")) {
        DiffNext::Done(Ok(text)) => assert_eq!(text, "changes between X and Y"),
        _ => panic!("expected the captured diff"),
    }

    // marking seen moves the marker to the head; with marker and
    // upstream both at Y there is no diff left
    let req = aur_fetch::mark_seen_request();
    assert_eq!(aur_fetch::action_args(&req.action), vec!["update-ref", "AUR_SEEN", "HEAD"]);
    let (t, _) = HasDiffTask::start();
    let (t, _) = match t.on_result(&ok("")) {
        HasDiffNext::Run(t, req) => (t, req),
        HasDiffNext::Done(_) => panic!("expected the id read"),
    };
    assert!(matches!(t.on_result(&ok("Y\nY\n")), HasDiffNext::Done(false)));
}
