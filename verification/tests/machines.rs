use aur_fetch::{
    CmdOutcome, CommitNext, CommitTask, DiffNext, DiffTask, Error, Fetch, GitAction,
    HasDiffNext, HasDiffTask, MergeNext, MergeTask, NeedsMergeNext, NeedsMergeTask, UnseenNext,
    UnseenTask,
};

fn handle() -> Fetch {
    Fetch {
        clone_dir: "/c".to_string(),
        diff_dir: "/d".to_string(),
        git: "git".to_string(),
        git_flags: vec![],
        aur_url: "https://aur.archlinux.org".to_string(),
    }
}

fn ok(stdout: &str) -> CmdOutcome {
    CmdOutcome { ok: true, stdout: stdout.to_string(), stderr: String::new() }
}

fn err(stderr: &str) -> CmdOutcome {
    CmdOutcome { ok: false, stdout: String::new(), stderr: stderr.to_string() }
}

fn run_arg0(req: &aur_fetch::CmdRequest) -> String {
    aur_fetch::action_args(&req.action).first().cloned().unwrap_or_default()
}

#[test]
fn diff_of_reviewed_repo_walks_the_merge_path() {
    let f = handle();
    let (t, req) = DiffTask::start("pkg-c".to_string(), false, false);
    assert_eq!(aur_fetch::action_args(&req.action), vec!["rev-parse", "HEAD"]);

    // the head query answers with a trailing newline; the machine saves it trimmed
    let next = t.on_result(&f, &ok("abc123\n"));
    let (t, req) = match next {
        DiffNext::Run(t, req) => (t, req),
        DiffNext::Done(_) => panic!("expected the marker check"),
    };
    assert_eq!(aur_fetch::action_args(&req.action), vec!["rev-parse", "--verify", "AUR_SEEN"]);

    // the marker exists: reset to it
    let (t, req) = match t.on_result(&f, &ok("")) {
        DiffNext::Run(t, req) => (t, req),
        DiffNext::Done(_) => panic!("expected the reset to the marker"),
    };
    assert_eq!(aur_fetch::action_args(&req.action), vec!["reset", "--hard", "AUR_SEEN"]);

    // the staging merge
    let (t, req) = match t.on_result(&f, &ok("")) {
        DiffNext::Run(t, req) => (t, req),
        DiffNext::Done(_) => panic!("expected the staging merge"),
    };
    assert_eq!(run_arg0(&req), "-c");

    // the staged diff is captured
    let (t, req) = match t.on_result(&f, &ok("")) {
        DiffNext::Run(t, req) => (t, req),
        DiffNext::Done(_) => panic!("expected the staged diff"),
    };
    assert_eq!(
        aur_fetch::action_args(&req.action),
        vec!["diff", "--stat", "--patch", "--cached", "--color=never", "--", ":!.SRCINFO"]
    );
    assert!(req.capture);

    // the restoring reset targets the saved head
    let (t, req) = match t.on_result(&f, &ok("the diff text")) {
        DiffNext::Run(t, req) => (t, req),
        DiffNext::Done(_) => panic!("expected the restoring reset"),
    };
    assert_eq!(aur_fetch::action_args(&req.action), vec!["reset", "--hard", "abc123"]);

    // done: the captured diff comes back
    match t.on_result(&f, &ok("")) {
        DiffNext::Done(Ok(text)) => assert_eq!(text, "the diff text"),
        _ => panic!("expected the diff text"),
    }
}

#[test]
fn diff_of_never_reviewed_repo_diffs_the_empty_tree() {
    let f = handle();
    let (t, _req) = DiffTask::start("pkg-a".to_string(), true, false);
    let (t, _req) = match t.on_result(&f, &ok("abc123\n")) {
        DiffNext::Run(t, req) => (t, req),
        DiffNext::Done(_) => panic!("expected the marker check"),
    };
    // no marker: straight to the empty-tree diff
    let (t, req) = match t.on_result(&f, &err("fatal: needed a single revision")) {
        DiffNext::Run(t, req) => (t, req),
        DiffNext::Done(_) => panic!("expected the empty-tree diff"),
    };
    assert_eq!(
        aur_fetch::action_args(&req.action),
        vec![
            "diff",
            "--stat",
            "--patch",
            "--color=always",
            "4b825dc642cb6eb9a060e54bf8d69288fbee4904..HEAD@{u}",
            "--",
            ":!.SRCINFO",
        ]
    );
    let (t, req) = match t.on_result(&f, &ok("everything")) {
        DiffNext::Run(t, req) => (t, req),
        DiffNext::Done(_) => panic!("expected the restoring reset"),
    };
    assert_eq!(aur_fetch::action_args(&req.action), vec!["reset", "--hard", "abc123"]);
    match t.on_result(&f, &ok("")) {
        DiffNext::Done(Ok(text)) => assert_eq!(text, "everything"),
        _ => panic!("expected the whole-contents diff"),
    }
}

#[test]
fn diff_failure_still_restores_before_reporting() {
    let f = handle();
    let (t, _) = DiffTask::start("pkg-c".to_string(), false, false);
    let (t, _) = match t.on_result(&f, &ok("abc123\n")) {
        DiffNext::Run(t, req) => (t, req),
        DiffNext::Done(_) => panic!("expected the marker check"),
    };
    let (t, _) = match t.on_result(&f, &ok("")) {
        DiffNext::Run(t, req) => (t, req),
        DiffNext::Done(_) => panic!("expected the reset to the marker"),
    };
    let (t, _) = match t.on_result(&f, &ok("")) {
        DiffNext::Run(t, req) => (t, req),
        DiffNext::Done(_) => panic!("expected the staging merge"),
    };
    // the staging merge conflicts: the machine must not finish yet —
    // the restoring reset comes first
    let (t, req) = match t.on_result(&f, &err("CONFLICT (content)")) {
        DiffNext::Run(t, req) => (t, req),
        DiffNext::Done(_) => panic!("must restore before reporting the failure"),
    };
    assert_eq!(aur_fetch::action_args(&req.action), vec!["reset", "--hard", "abc123"]);
    // after the restore, the merge's own failure surfaces
    match t.on_result(&f, &ok("")) {
        DiffNext::Done(Err(Error::CommandFailed(fail))) => {
            assert_eq!(fail.dir, "/c/pkg-c");
            assert_eq!(fail.command, "git");
            assert_eq!(fail.stderr.as_deref(), Some("CONFLICT (content)"));
            assert_eq!(fail.args.first().map(|s| s.as_str()), Some("-c"));
        },
        _ => panic!("expected the merge failure"),
    }
}

#[test]
fn streaming_diff_does_not_capture_the_diff_commands() {
    let f = handle();
    let (t, req) = DiffTask::start("pkg-a".to_string(), false, true);
    assert!(req.capture);
    let (t, req) = match t.on_result(&f, &ok("abc\n")) {
        DiffNext::Run(t, req) => (t, req),
        DiffNext::Done(_) => panic!("expected the marker check"),
    };
    assert!(req.capture);
    let (_t, req) = match t.on_result(&f, &err("")) {
        DiffNext::Run(t, req) => (t, req),
        DiffNext::Done(_) => panic!("expected the empty-tree diff"),
    };
    assert!(!req.capture);
    assert_eq!(
        aur_fetch::action_args(&req.action),
        vec![
            "diff",
            "--stat",
            "--patch",
            "4b825dc642cb6eb9a060e54bf8d69288fbee4904..HEAD@{u}",
            "--",
            ":!.SRCINFO",
        ]
    );
}

#[test]
fn merge_on_a_branch_skips_the_checkout() {
    let f = handle();
    let (t, req) = MergeTask::start("pkg-b".to_string());
    assert_eq!(aur_fetch::action_args(&req.action), vec!["reset", "--hard", "-q", "HEAD"]);
    let (t, req) = match t.on_result(&f, &ok("")) {
        MergeNext::Run(t, req) => (t, req),
        MergeNext::Done(_) => panic!("expected the branch test"),
    };
    assert_eq!(aur_fetch::action_args(&req.action), vec!["symbolic-ref", "-q", "HEAD"]);
    let (t, req) = match t.on_result(&f, &ok("refs/heads/master\n")) {
        MergeNext::Run(t, req) => (t, req),
        MergeNext::Done(_) => panic!("expected the rebase"),
    };
    assert_eq!(aur_fetch::action_args(&req.action), vec!["rebase", "--stat"]);
    match t.on_result(&f, &ok("Fast-forwarded master to origin/master.\n")) {
        MergeNext::Done(Ok(out)) => assert_eq!(out, "Fast-forwarded master to origin/master.\n"),
        _ => panic!("expected the rebase output"),
    }
}

#[test]
fn merge_from_detached_head_checks_out_master_first() {
    let f = handle();
    let (t, _) = MergeTask::start("pkg-b".to_string());
    let (t, _) = match t.on_result(&f, &ok("")) {
        MergeNext::Run(t, req) => (t, req),
        MergeNext::Done(_) => panic!("expected the branch test"),
    };
    // detached: the branch test fails, the default branch is checked out
    let (t, req) = match t.on_result(&f, &err("")) {
        MergeNext::Run(t, req) => (t, req),
        MergeNext::Done(_) => panic!("expected the checkout"),
    };
    assert_eq!(aur_fetch::action_args(&req.action), vec!["checkout", "master"]);
    let (t, _) = match t.on_result(&f, &ok("")) {
        MergeNext::Run(t, req) => (t, req),
        MergeNext::Done(_) => panic!("expected the rebase"),
    };
    // a conflicting rebase fails the merge with the invocation recorded
    match t.on_result(&f, &err("could not apply 1234abc")) {
        MergeNext::Done(Err(Error::CommandFailed(fail))) => {
            assert_eq!(fail.dir, "/c/pkg-b");
            assert_eq!(fail.args, vec!["rebase", "--stat"]);
        },
        _ => panic!("expected the rebase failure"),
    }
}

#[test]
fn commit_with_identity_uses_the_message() {
    let f = handle();
    let (t, req) = CommitTask::start("pkg-a".to_string(), "saved edits".to_string());
    assert_eq!(aur_fetch::action_args(&req.action), vec!["config", "user.name"]);
    let (t, req) = match t.on_result(&f, &ok("A User\n")) {
        CommitNext::Run(t, req) => (t, req),
        CommitNext::Done(_) => panic!("expected the address test"),
    };
    assert_eq!(aur_fetch::action_args(&req.action), vec!["config", "user.email"]);
    let (t, req) = match t.on_result(&f, &ok("user@example.com\n")) {
        CommitNext::Run(t, req) => (t, req),
        CommitNext::Done(_) => panic!("expected the changes test"),
    };
    assert_eq!(aur_fetch::action_args(&req.action), vec!["diff", "--exit-code"]);
    // the tree has changes: the changes test exits non-zero
    let (t, req) = match t.on_result(&f, &err("")) {
        CommitNext::Run(t, req) => (t, req),
        CommitNext::Done(_) => panic!("expected the commit"),
    };
    assert_eq!(aur_fetch::action_args(&req.action), vec!["commit", "-am", "saved edits"]);
    assert!(matches!(t.on_result(&f, &ok("")), CommitNext::Done(Ok(()))));
}

#[test]
fn commit_without_identity_is_synthetic() {
    let f = handle();
    let (t, _) = CommitTask::start("pkg-a".to_string(), "ignored".to_string());
    // no committer name: the address test is skipped
    let (t, req) = match t.on_result(&f, &err("")) {
        CommitNext::Run(t, req) => (t, req),
        CommitNext::Done(_) => panic!("expected the changes test"),
    };
    assert_eq!(aur_fetch::action_args(&req.action), vec!["diff", "--exit-code"]);
    let (t, req) = match t.on_result(&f, &err("")) {
        CommitNext::Run(t, req) => (t, req),
        CommitNext::Done(_) => panic!("expected the commit"),
    };
    assert_eq!(
        aur_fetch::action_args(&req.action),
        vec!["-c", "user.email=aur", "-c", "user.name=aur", "commit", "-am", "AUR"]
    );
    assert!(matches!(t.on_result(&f, &ok("")), CommitNext::Done(Ok(()))));
}

#[test]
fn commit_with_clean_tree_does_nothing() {
    let f = handle();
    let (t, _) = CommitTask::start("pkg-a".to_string(), "m".to_string());
    let (t, _) = match t.on_result(&f, &ok("A User\n")) {
        CommitNext::Run(t, req) => (t, req),
        CommitNext::Done(_) => panic!("expected the address test"),
    };
    let (t, _) = match t.on_result(&f, &ok("user@example.com\n")) {
        CommitNext::Run(t, req) => (t, req),
        CommitNext::Done(_) => panic!("expected the changes test"),
    };
    // exit code zero: nothing to commit
    assert!(matches!(t.on_result(&f, &ok("")), CommitNext::Done(Ok(()))));
}

#[test]
fn unseen_answers() {
    // no marker: unseen at once
    let (t, _) = UnseenTask::start();
    assert!(matches!(t.on_result(&err("")), UnseenNext::Done(true)));

    // marker present, upstream is an ancestor: seen
    let (t, _) = UnseenTask::start();
    let (t, req) = match t.on_result(&ok("")) {
        UnseenNext::Run(t, req) => (t, req),
        UnseenNext::Done(_) => panic!("expected the ancestry test"),
    };
    assert_eq!(
        aur_fetch::action_args(&req.action),
        vec!["merge-base", "--is-ancestor", "HEAD@{u}", "AUR_SEEN"]
    );
    assert!(matches!(t.on_result(&ok("")), UnseenNext::Done(false)));

    // marker present, upstream moved past it: unseen
    let (t, _) = UnseenTask::start();
    let (t, _) = match t.on_result(&ok("")) {
        UnseenNext::Run(t, req) => (t, req),
        UnseenNext::Done(_) => panic!("expected the ancestry test"),
    };
    assert!(matches!(t.on_result(&err("")), UnseenNext::Done(true)));
}

#[test]
fn has_diff_answers() {
    // no marker: no diff
    let (t, _) = HasDiffTask::start();
    assert!(matches!(t.on_result(&err("")), HasDiffNext::Done(false)));

    // marker and upstream differ: a diff
    let (t, _) = HasDiffTask::start();
    let (t, req) = match t.on_result(&ok("")) {
        HasDiffNext::Run(t, req) => (t, req),
        HasDiffNext::Done(_) => panic!("expected the id read"),
    };
    assert_eq!(
        aur_fetch::action_args(&req.action),
        vec!["rev-parse", "AUR_SEEN", "HEAD@{u}"]
    );
    assert!(matches!(t.on_result(&ok("abc\ndef\n")), HasDiffNext::Done(true)));

    // marker equals upstream: no diff
    let (t, _) = HasDiffTask::start();
    let (t, _) = match t.on_result(&ok("")) {
        HasDiffNext::Run(t, req) => (t, req),
        HasDiffNext::Done(_) => panic!("expected the id read"),
    };
    assert!(matches!(t.on_result(&ok("abc\nabc\n")), HasDiffNext::Done(false)));

    // unresolvable upstream: counts as no diff
    let (t, _) = HasDiffTask::start();
    let (t, _) = match t.on_result(&ok("")) {
        HasDiffNext::Run(t, req) => (t, req),
        HasDiffNext::Done(_) => panic!("expected the id read"),
    };
    assert!(matches!(t.on_result(&err("fatal: no upstream")), HasDiffNext::Done(false)));
}

#[test]
fn needs_merge_answers() {
    let (t, req) = NeedsMergeTask::start();
    assert_eq!(aur_fetch::action_args(&req.action), vec!["rev-parse", "HEAD", "HEAD@{u}"]);
    assert!(matches!(t.on_result(&ok("abc\ndef\n")), NeedsMergeNext::Done(true)));

    let (t, _) = NeedsMergeTask::start();
    assert!(matches!(t.on_result(&ok("abc\nabc\n")), NeedsMergeNext::Done(false)));

    // no upstream to merge from
    let (t, _) = NeedsMergeTask::start();
    assert!(matches!(t.on_result(&err("fatal: no upstream")), NeedsMergeNext::Done(false)));
}
