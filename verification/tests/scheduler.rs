use aur_fetch::{
    download_request, drain_events, CommandFailed, Error, Fetch, FetchDone, FetchEvent,
    FetchKind, GitAction, Progress, Repo,
};

fn done(name: &str, kind: FetchKind, output: &str) -> FetchEvent {
    FetchEvent::Done(FetchDone {
        name: name.to_string(),
        kind,
        output: output.to_string(),
    })
}

fn failed(dir: &str) -> FetchEvent {
    FetchEvent::Failed(Error::CommandFailed(CommandFailed {
        dir: dir.to_string(),
        command: "git".to_string(),
        args: vec!["fetch".to_string(), "-v".to_string()],
        stderr: Some("fatal: could not read from remote".to_string()),
    }))
}

#[test]
fn download_request_clones_missing_and_fetches_present() {
    let repo = Repo {
        url: "https://aur.archlinux.org/pkg-a".to_string(),
        name: "pkg-a".to_string(),
    };
    let (req, kind) = download_request(&repo, false);
    assert!(matches!(kind, FetchKind::Cloned));
    assert_eq!(
        aur_fetch::action_args(&req.action),
        vec!["clone", "--no-progress", "--", "https://aur.archlinux.org/pkg-a", "pkg-a"]
    );

    let (req, kind) = download_request(&repo, true);
    assert!(matches!(kind, FetchKind::Fetched));
    assert_eq!(aur_fetch::action_args(&req.action), vec!["fetch", "-v"]);
}

#[test]
fn progress_numbers_completions_from_one() {
    let mut p = Progress::new();
    let cb = p.absorb(FetchDone {
        name: "pkg-a".to_string(),
        kind: FetchKind::Cloned,
        output: " cloning...\n".to_string(),
    });
    assert_eq!(cb.n, 1);
    assert_eq!(cb.pkg, "pkg-a");
    assert_eq!(cb.output, "cloning...");
    assert!(p.fetched.is_empty());

    let cb = p.absorb(FetchDone {
        name: "pkg-b".to_string(),
        kind: FetchKind::Fetched,
        output: "From https://example\n".to_string(),
    });
    assert_eq!(cb.n, 2);
    assert_eq!(p.fetched, vec!["pkg-b"]);
}

#[test]
fn drain_returns_already_present_in_completion_order() {
    let events = vec![
        done("pkg-b", FetchKind::Fetched, "b out\n"),
        done("pkg-a", FetchKind::Cloned, "a out\n"),
        done("pkg-c", FetchKind::Fetched, "c out\n"),
    ];
    let (cbs, res) = drain_events(&events);
    assert_eq!(cbs.len(), 3);
    assert_eq!(cbs[0].n, 1);
    assert_eq!(cbs[0].pkg, "pkg-b");
    assert_eq!(cbs[0].output, "b out");
    assert_eq!(cbs[2].n, 3);
    match res {
        Ok(fetched) => assert_eq!(fetched, vec!["pkg-b", "pkg-c"]),
        Err(_) => panic!("no failure was queued"),
    }
}

#[test]
fn drain_stops_at_the_first_failure() {
    // ten repositories; the third one to complete fails
    let mut events = Vec::new();
    events.push(done("pkg-0", FetchKind::Fetched, ""));
    events.push(done("pkg-1", FetchKind::Fetched, ""));
    events.push(failed("/c/pkg-2"));
    for i in 3..10 {
        events.push(done(&format!("pkg-{}", i), FetchKind::Fetched, ""));
    }
    let (cbs, res) = drain_events(&events);
    // only the completions before the failure were reported
    assert_eq!(cbs.len(), 2);
    match res {
        Err(Error::CommandFailed(fail)) => {
            assert_eq!(fail.dir, "/c/pkg-2");
            assert_eq!(fail.stderr.as_deref(), Some("fatal: could not read from remote"));
        },
        _ => panic!("the failure must surface"),
    }
}

#[test]
fn repos_for_pkgs_builds_the_clone_addresses() {
    let f = Fetch {
        clone_dir: "/c".to_string(),
        diff_dir: "/d".to_string(),
        git: "git".to_string(),
        git_flags: vec![],
        aur_url: "https://aur.archlinux.org".to_string(),
    };
    let repos = f
        .repos_for_pkgs(&vec!["pkg-a".to_string(), "pkg-b".to_string()])
        .expect("the base address is well-formed");
    assert_eq!(repos.len(), 2);
    assert_eq!(repos[0].name, "pkg-a");
    assert_eq!(repos[0].url, "https://aur.archlinux.org/pkg-a");
    assert_eq!(repos[1].url, "https://aur.archlinux.org/pkg-b");
}

#[test]
fn repos_for_pkgs_rejects_a_malformed_base() {
    let f = Fetch {
        clone_dir: "/c".to_string(),
        diff_dir: "/d".to_string(),
        git: "git".to_string(),
        git_flags: vec![],
        aur_url: "not a url".to_string(),
    };
    assert!(f.repos_for_pkgs(&vec!["pkg-a".to_string()]).is_none());
}

#[test]
fn repo_url_replaces_the_path() {
    let f = Fetch {
        clone_dir: "/c".to_string(),
        diff_dir: "/d".to_string(),
        git: "git".to_string(),
        git_flags: vec![],
        aur_url: "https://aur.archlinux.org/rpc".to_string(),
    };
    let url = aur_fetch::repo_url(&f, "some-pkg").expect("well-formed base");
    assert_eq!(url, "https://aur.archlinux.org/some-pkg");
}

#[test]
fn select_marked_keeps_order() {
    let pkgs = vec!["a".to_string(), "b".to_string(), "c".to_string()];
    let marks = vec![true, false, true];
    assert_eq!(aur_fetch::select_marked(&pkgs, &marks), vec!["a", "c"]);
    let none = vec![false, false, false];
    assert!(aur_fetch::select_marked(&pkgs, &none).is_empty());
}

#[test]
fn worker_count_is_capped_by_the_batch() {
    assert_eq!(aur_fetch::worker_count(0), 0);
    assert_eq!(aur_fetch::worker_count(3), 3);
    assert_eq!(aur_fetch::worker_count(20), 20);
    assert_eq!(aur_fetch::worker_count(500), 20);
}

#[test]
fn mark_seen_and_log_requests() {
    let req = aur_fetch::mark_seen_request();
    assert_eq!(aur_fetch::action_args(&req.action), vec!["update-ref", "AUR_SEEN", "HEAD"]);
    let req = aur_fetch::log_request(true);
    assert_eq!(
        aur_fetch::action_args(&req.action),
        vec!["log", "..HEAD@{u}", "--color=always"]
    );
    assert!(matches!(req.action, GitAction::Log { color: true }));
}
