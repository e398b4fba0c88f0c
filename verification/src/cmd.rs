use vstd::prelude::*;

verus! {

/// One invocation of the external version-control tool, reduced to the
/// exact argument list it needs.  Every variant stands for a fixed
/// subcommand; the state machines of this crate emit these and the
/// unverified shell turns each into a spawned process.
pub enum GitAction {
    /// Clone `url` into the directory `name` (run in the cache directory).
    Clone { url: String, name: String },
    /// Fetch the remote of an existing clone.
    FetchRemote,
    /// Print the commit id of `HEAD`.
    RevParseHead,
    /// Succeed exactly when the review marker `AUR_SEEN` exists.
    CheckSeen,
    /// Print the commit ids of `AUR_SEEN` and the upstream head, one line each.
    RevParseSeenUpstream,
    /// Print the commit ids of `HEAD` and the upstream head, one line each.
    RevParseHeadUpstream,
    /// Succeed exactly when the upstream head is an ancestor of `AUR_SEEN`.
    IsAncestorUpstreamSeen,
    /// Hard-reset the working tree to the review marker.
    ResetHardSeen,
    /// Hard-reset the working tree to the given commit.
    ResetHardTo { commit: String },
    /// Quietly hard-reset the working tree to `HEAD`.
    ResetHardHeadQuiet,
    /// Stage a merge of the upstream head without committing it.
    MergeNoCommit,
    /// Diff the staged index against `HEAD`, with an explicit colour choice.
    DiffStaged { color: bool },
    /// Diff the staged index against `HEAD` with the user's own colour setup.
    DiffStagedDefault,
    /// Diff from the well-known empty tree to the upstream head, with an
    /// explicit colour choice.
    DiffEmptyTree { color: bool },
    /// Diff from the well-known empty tree to the upstream head with the
    /// user's own colour setup.
    DiffEmptyTreeDefault,
    /// Log the commits reachable from the upstream head but not from `HEAD`.
    Log { color: bool },
    /// Succeed exactly when `HEAD` names a branch (not detached).
    SymbolicRefHead,
    /// Check out the default branch.
    CheckoutMaster,
    /// Rebase the current branch onto its upstream.
    Rebase,
    /// Move the review marker `AUR_SEEN` to `HEAD`.
    UpdateSeenRef,
    /// Succeed exactly when a committer name is configured.
    ConfigUserName,
    /// Succeed exactly when a committer address is configured.
    ConfigUserEmail,
    /// Succeed exactly when the working tree has no uncommitted change.
    DiffExitCode,
    /// Commit all tracked changes with the given message and the
    /// configured identity.
    CommitAll { message: String },
    /// Commit all tracked changes under a synthetic identity.
    CommitAllSynthetic,
}

/// Mathematical image of a [`GitAction`].
pub enum GitActionV {
    Clone { url: Seq<char>, name: Seq<char> },
    FetchRemote,
    RevParseHead,
    CheckSeen,
    RevParseSeenUpstream,
    RevParseHeadUpstream,
    IsAncestorUpstreamSeen,
    ResetHardSeen,
    ResetHardTo { commit: Seq<char> },
    ResetHardHeadQuiet,
    MergeNoCommit,
    DiffStaged { color: bool },
    DiffStagedDefault,
    DiffEmptyTree { color: bool },
    DiffEmptyTreeDefault,
    Log { color: bool },
    SymbolicRefHead,
    CheckoutMaster,
    Rebase,
    UpdateSeenRef,
    ConfigUserName,
    ConfigUserEmail,
    DiffExitCode,
    CommitAll { message: Seq<char> },
    CommitAllSynthetic,
}

impl View for GitAction {
    type V = GitActionV;

    open spec fn view(&self) -> GitActionV {
        match self {
            GitAction::Clone { url, name } => GitActionV::Clone { url: url@, name: name@ },
            GitAction::FetchRemote => GitActionV::FetchRemote,
            GitAction::RevParseHead => GitActionV::RevParseHead,
            GitAction::CheckSeen => GitActionV::CheckSeen,
            GitAction::RevParseSeenUpstream => GitActionV::RevParseSeenUpstream,
            GitAction::RevParseHeadUpstream => GitActionV::RevParseHeadUpstream,
            GitAction::IsAncestorUpstreamSeen => GitActionV::IsAncestorUpstreamSeen,
            GitAction::ResetHardSeen => GitActionV::ResetHardSeen,
            GitAction::ResetHardTo { commit } => GitActionV::ResetHardTo { commit: commit@ },
            GitAction::ResetHardHeadQuiet => GitActionV::ResetHardHeadQuiet,
            GitAction::MergeNoCommit => GitActionV::MergeNoCommit,
            GitAction::DiffStaged { color } => GitActionV::DiffStaged { color: *color },
            GitAction::DiffStagedDefault => GitActionV::DiffStagedDefault,
            GitAction::DiffEmptyTree { color } => GitActionV::DiffEmptyTree { color: *color },
            GitAction::DiffEmptyTreeDefault => GitActionV::DiffEmptyTreeDefault,
            GitAction::Log { color } => GitActionV::Log { color: *color },
            GitAction::SymbolicRefHead => GitActionV::SymbolicRefHead,
            GitAction::CheckoutMaster => GitActionV::CheckoutMaster,
            GitAction::Rebase => GitActionV::Rebase,
            GitAction::UpdateSeenRef => GitActionV::UpdateSeenRef,
            GitAction::ConfigUserName => GitActionV::ConfigUserName,
            GitAction::ConfigUserEmail => GitActionV::ConfigUserEmail,
            GitAction::DiffExitCode => GitActionV::DiffExitCode,
            GitAction::CommitAll { message } => GitActionV::CommitAll { message: message@ },
            GitAction::CommitAllSynthetic => GitActionV::CommitAllSynthetic,
        }
    }
}

/// The colour flag handed to diff and log subcommands.
pub open spec fn color_arg(color: bool) -> Seq<char> {
    if color {
        "--color=always"@
    } else {
        "--color=never"@
    }
}

/// The colour flag handed to diff and log subcommands.
pub fn color_str(color: bool) -> (r: &'static str)
    ensures
        r@ == color_arg(color),
{
    if color {
        "--color=always"
    } else {
        "--color=never"
    }
}

/// The argument list of each action, exactly as the external tool is
/// invoked.
pub open spec fn action_args_spec(a: GitActionV) -> Seq<Seq<char>> {
    match a {
        GitActionV::Clone { url, name } => seq!["clone"@, "--no-progress"@, "--"@, url, name],
        GitActionV::FetchRemote => seq!["fetch"@, "-v"@],
        GitActionV::RevParseHead => seq!["rev-parse"@, "HEAD"@],
        GitActionV::CheckSeen => seq!["rev-parse"@, "--verify"@, "AUR_SEEN"@],
        GitActionV::RevParseSeenUpstream => seq!["rev-parse"@, "AUR_SEEN"@, "HEAD@{u}"@],
        GitActionV::RevParseHeadUpstream => seq!["rev-parse"@, "HEAD"@, "HEAD@{u}"@],
        GitActionV::IsAncestorUpstreamSeen => seq![
            "merge-base"@,
            "--is-ancestor"@,
            "HEAD@{u}"@,
            "AUR_SEEN"@,
        ],
        GitActionV::ResetHardSeen => seq!["reset"@, "--hard"@, "AUR_SEEN"@],
        GitActionV::ResetHardTo { commit } => seq!["reset"@, "--hard"@, commit],
        GitActionV::ResetHardHeadQuiet => seq!["reset"@, "--hard"@, "-q"@, "HEAD"@],
        GitActionV::MergeNoCommit => seq![
            "-c"@,
            "user.email=aur"@,
            "-c"@,
            "user.name=aur"@,
            "merge"@,
            "--no-edit"@,
            "--no-ff"@,
            "--no-commit"@,
        ],
        GitActionV::DiffStaged { color } => seq![
            "diff"@,
            "--stat"@,
            "--patch"@,
            "--cached"@,
            color_arg(color),
            "--"@,
            ":!.SRCINFO"@,
        ],
        GitActionV::DiffStagedDefault => seq![
            "diff"@,
            "--stat"@,
            "--patch"@,
            "--cached"@,
            "--"@,
            ":!.SRCINFO"@,
        ],
        GitActionV::DiffEmptyTree { color } => seq![
            "diff"@,
            "--stat"@,
            "--patch"@,
            color_arg(color),
            "4b825dc642cb6eb9a060e54bf8d69288fbee4904..HEAD@{u}"@,
            "--"@,
            ":!.SRCINFO"@,
        ],
        GitActionV::DiffEmptyTreeDefault => seq![
            "diff"@,
            "--stat"@,
            "--patch"@,
            "4b825dc642cb6eb9a060e54bf8d69288fbee4904..HEAD@{u}"@,
            "--"@,
            ":!.SRCINFO"@,
        ],
        GitActionV::Log { color } => seq!["log"@, "..HEAD@{u}"@, color_arg(color)],
        GitActionV::SymbolicRefHead => seq!["symbolic-ref"@, "-q"@, "HEAD"@],
        GitActionV::CheckoutMaster => seq!["checkout"@, "master"@],
        GitActionV::Rebase => seq!["rebase"@, "--stat"@],
        GitActionV::UpdateSeenRef => seq!["update-ref"@, "AUR_SEEN"@, "HEAD"@],
        GitActionV::ConfigUserName => seq!["config"@, "user.name"@],
        GitActionV::ConfigUserEmail => seq!["config"@, "user.email"@],
        GitActionV::DiffExitCode => seq!["diff"@, "--exit-code"@],
        GitActionV::CommitAll { message } => seq!["commit"@, "-am"@, message],
        GitActionV::CommitAllSynthetic => seq![
            "-c"@,
            "user.email=aur"@,
            "-c"@,
            "user.name=aur"@,
            "commit"@,
            "-am"@,
            "AUR"@,
        ],
    }
}

/// Copies a list of arguments, keeping every element's text.
pub fn clone_strings(v: &Vec<String>) -> (r: Vec<String>)
    ensures
        r.deep_view() == v.deep_view(),
{
    let mut r: Vec<String> = Vec::new();
    let mut i: usize = 0;
    while i < v.len()
        invariant
            0 <= i <= v.len(),
            r.deep_view() == v.deep_view().subrange(0, i as int),
        decreases v.len() - i,
    {
        let ghost old_dv = r.deep_view();
        let c = v[i].clone();
        assert(c@ == v@[i as int]@);
        r.push(c);
        proof {
            assert(old_dv == v.deep_view().subrange(0, i as int));
            assert(old_dv.len() == i as int);
            assert(r@.len() == i + 1);
            assert(r.deep_view().len() == i + 1);
            assert forall|k: int| 0 <= k < i + 1 implies r.deep_view()[k] == v.deep_view()[k] by {
                assert(r.deep_view()[k] == r@[k]@);
                if k < i {
                    assert(old_dv[k] == v.deep_view()[k]);
                }
            }
            assert(r.deep_view() =~= v.deep_view().subrange(0, i + 1 as int));
        }
        i = i + 1;
    }
    proof {
        assert(v.deep_view().subrange(0, v.len() as int) =~= v.deep_view());
    }
    r
}

/// Appends one literal argument.
fn push_str(v: &mut Vec<String>, s: &str)
    ensures
        final(v).deep_view() == old(v).deep_view().push(s@),
{
    v.push(String::from_str(s));
    proof {
        assert(v.deep_view() =~= old(v).deep_view().push(s@));
    }
}

/// Appends one owned argument.
fn push_string(v: &mut Vec<String>, s: &String)
    ensures
        final(v).deep_view() == old(v).deep_view().push(s@),
{
    v.push(s.clone());
    proof {
        assert(v.deep_view() =~= old(v).deep_view().push(s@));
    }
}

/// Builds the argument list of `a`.
pub fn action_args(a: &GitAction) -> (r: Vec<String>)
    ensures
        r.deep_view() == action_args_spec(a@),
{
    let mut v: Vec<String> = Vec::new();
    proof {
        assert(v.deep_view() =~= Seq::<Seq<char>>::empty());
    }
    match a {
        GitAction::Clone { url, name } => {
            push_str(&mut v, "clone");
            push_str(&mut v, "--no-progress");
            push_str(&mut v, "--");
            push_string(&mut v, url);
            push_string(&mut v, name);
        },
        GitAction::FetchRemote => {
            push_str(&mut v, "fetch");
            push_str(&mut v, "-v");
        },
        GitAction::RevParseHead => {
            push_str(&mut v, "rev-parse");
            push_str(&mut v, "HEAD");
        },
        GitAction::CheckSeen => {
            push_str(&mut v, "rev-parse");
            push_str(&mut v, "--verify");
            push_str(&mut v, "AUR_SEEN");
        },
        GitAction::RevParseSeenUpstream => {
            push_str(&mut v, "rev-parse");
            push_str(&mut v, "AUR_SEEN");
            push_str(&mut v, "HEAD@{u}");
        },
        GitAction::RevParseHeadUpstream => {
            push_str(&mut v, "rev-parse");
            push_str(&mut v, "HEAD");
            push_str(&mut v, "HEAD@{u}");
        },
        GitAction::IsAncestorUpstreamSeen => {
            push_str(&mut v, "merge-base");
            push_str(&mut v, "--is-ancestor");
            push_str(&mut v, "HEAD@{u}");
            push_str(&mut v, "AUR_SEEN");
        },
        GitAction::ResetHardSeen => {
            push_str(&mut v, "reset");
            push_str(&mut v, "--hard");
            push_str(&mut v, "AUR_SEEN");
        },
        GitAction::ResetHardTo { commit } => {
            push_str(&mut v, "reset");
            push_str(&mut v, "--hard");
            push_string(&mut v, commit);
        },
        GitAction::ResetHardHeadQuiet => {
            push_str(&mut v, "reset");
            push_str(&mut v, "--hard");
            push_str(&mut v, "-q");
            push_str(&mut v, "HEAD");
        },
        GitAction::MergeNoCommit => {
            push_str(&mut v, "-c");
            push_str(&mut v, "user.email=aur");
            push_str(&mut v, "-c");
            push_str(&mut v, "user.name=aur");
            push_str(&mut v, "merge");
            push_str(&mut v, "--no-edit");
            push_str(&mut v, "--no-ff");
            push_str(&mut v, "--no-commit");
        },
        GitAction::DiffStaged { color } => {
            push_str(&mut v, "diff");
            push_str(&mut v, "--stat");
            push_str(&mut v, "--patch");
            push_str(&mut v, "--cached");
            push_str(&mut v, color_str(*color));
            push_str(&mut v, "--");
            push_str(&mut v, ":!.SRCINFO");
        },
        GitAction::DiffStagedDefault => {
            push_str(&mut v, "diff");
            push_str(&mut v, "--stat");
            push_str(&mut v, "--patch");
            push_str(&mut v, "--cached");
            push_str(&mut v, "--");
            push_str(&mut v, ":!.SRCINFO");
        },
        GitAction::DiffEmptyTree { color } => {
            push_str(&mut v, "diff");
            push_str(&mut v, "--stat");
            push_str(&mut v, "--patch");
            push_str(&mut v, color_str(*color));
            push_str(&mut v, "4b825dc642cb6eb9a060e54bf8d69288fbee4904..HEAD@{u}");
            push_str(&mut v, "--");
            push_str(&mut v, ":!.SRCINFO");
        },
        GitAction::DiffEmptyTreeDefault => {
            push_str(&mut v, "diff");
            push_str(&mut v, "--stat");
            push_str(&mut v, "--patch");
            push_str(&mut v, "4b825dc642cb6eb9a060e54bf8d69288fbee4904..HEAD@{u}");
            push_str(&mut v, "--");
            push_str(&mut v, ":!.SRCINFO");
        },
        GitAction::Log { color } => {
            push_str(&mut v, "log");
            push_str(&mut v, "..HEAD@{u}");
            push_str(&mut v, color_str(*color));
        },
        GitAction::SymbolicRefHead => {
            push_str(&mut v, "symbolic-ref");
            push_str(&mut v, "-q");
            push_str(&mut v, "HEAD");
        },
        GitAction::CheckoutMaster => {
            push_str(&mut v, "checkout");
            push_str(&mut v, "master");
        },
        GitAction::Rebase => {
            push_str(&mut v, "rebase");
            push_str(&mut v, "--stat");
        },
        GitAction::UpdateSeenRef => {
            push_str(&mut v, "update-ref");
            push_str(&mut v, "AUR_SEEN");
            push_str(&mut v, "HEAD");
        },
        GitAction::ConfigUserName => {
            push_str(&mut v, "config");
            push_str(&mut v, "user.name");
        },
        GitAction::ConfigUserEmail => {
            push_str(&mut v, "config");
            push_str(&mut v, "user.email");
        },
        GitAction::DiffExitCode => {
            push_str(&mut v, "diff");
            push_str(&mut v, "--exit-code");
        },
        GitAction::CommitAll { message } => {
            push_str(&mut v, "commit");
            push_str(&mut v, "-am");
            push_string(&mut v, message);
        },
        GitAction::CommitAllSynthetic => {
            push_str(&mut v, "-c");
            push_str(&mut v, "user.email=aur");
            push_str(&mut v, "-c");
            push_str(&mut v, "user.name=aur");
            push_str(&mut v, "commit");
            push_str(&mut v, "-am");
            push_str(&mut v, "AUR");
        },
    }
    proof {
        assert(v.deep_view() =~= action_args_spec(a@));
    }
    v
}

/// A request the state machines hand to the unverified shell: which
/// action to run next and whether its output is to be captured rather
/// than streamed to the caller's terminal.
pub struct CmdRequest {
    pub action: GitAction,
    pub capture: bool,
}

/// Mathematical image of a [`CmdRequest`].
pub struct CmdRequestV {
    pub action: GitActionV,
    pub capture: bool,
}

impl View for CmdRequest {
    type V = CmdRequestV;

    open spec fn view(&self) -> CmdRequestV {
        CmdRequestV { action: self.action@, capture: self.capture }
    }
}

/// What came back from one invocation of the external tool: whether it
/// exited zero, and its captured output (empty when streamed).
pub struct CmdOutcome {
    pub ok: bool,
    pub stdout: String,
    pub stderr: String,
}

/// Mathematical image of a [`CmdOutcome`].
pub struct CmdOutcomeV {
    pub ok: bool,
    pub stdout: Seq<char>,
    pub stderr: Seq<char>,
}

impl View for CmdOutcome {
    type V = CmdOutcomeV;

    open spec fn view(&self) -> CmdOutcomeV {
        CmdOutcomeV { ok: self.ok, stdout: self.stdout@, stderr: self.stderr@ }
    }
}

/// A fully assembled invocation: program, working directory, arguments
/// and capture mode.  Interactive credential prompting is always
/// disabled when the shell runs one of these.
pub struct CmdSpec {
    pub program: String,
    pub dir: String,
    pub args: Vec<String>,
    pub capture: bool,
}

/// Mathematical image of a [`CmdSpec`].
pub struct CmdSpecV {
    pub program: Seq<char>,
    pub dir: Seq<char>,
    pub args: Seq<Seq<char>>,
    pub capture: bool,
}

impl View for CmdSpec {
    type V = CmdSpecV;

    open spec fn view(&self) -> CmdSpecV {
        CmdSpecV {
            program: self.program@,
            dir: self.dir@,
            args: self.args.deep_view(),
            capture: self.capture,
        }
    }
}

} // verus!
