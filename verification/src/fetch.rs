use vstd::prelude::*;

use crate::cmd::{
    action_args, action_args_spec, clone_strings, CmdRequest, CmdSpec, GitAction, GitActionV,
};
use crate::error::{CommandFailed, CommandFailedV};
use crate::text::{path_join, path_join_spec};

verus! {

/// A repository to download: its remote address and its directory name
/// under the cache.
pub struct Repo {
    /// The address the repository is cloned from.
    pub url: String,
    /// The name of the repository, which doubles as its directory name.
    pub name: String,
}

/// Mathematical image of a [`Repo`].
pub struct RepoV {
    pub url: Seq<char>,
    pub name: Seq<char>,
}

impl View for Repo {
    type V = RepoV;

    open spec fn view(&self) -> RepoV {
        RepoV { url: self.url@, name: self.name@ }
    }
}

/// Handle to the current configuration.
///
/// The handle carries the directories, the external tool and the flags
/// that every operation of this crate works with.  It is built once and
/// then only read.
pub struct Fetch {
    /// The directory the package repositories are cloned into.
    pub clone_dir: String,
    /// The directory saved diffs are written to.
    pub diff_dir: String,
    /// The version-control program to run.
    pub git: String,
    /// Global flags inserted before every subcommand.
    pub git_flags: Vec<String>,
    /// Base address that package names are joined onto.
    pub aur_url: String,
}

/// Mathematical image of a [`Fetch`].
pub struct FetchV {
    pub clone_dir: Seq<char>,
    pub diff_dir: Seq<char>,
    pub git: Seq<char>,
    pub git_flags: Seq<Seq<char>>,
    pub aur_url: Seq<char>,
}

impl View for Fetch {
    type V = FetchV;

    open spec fn view(&self) -> FetchV {
        FetchV {
            clone_dir: self.clone_dir@,
            diff_dir: self.diff_dir@,
            git: self.git@,
            git_flags: self.git_flags.deep_view(),
            aur_url: self.aur_url@,
        }
    }
}

/// The working directory an action runs in: cloning runs in the cache
/// directory itself, everything else inside the repository.
pub open spec fn action_dir_v(conf: FetchV, pkg: Seq<char>, a: GitActionV) -> Seq<char> {
    if a is Clone {
        conf.clone_dir
    } else {
        path_join_spec(conf.clone_dir, pkg)
    }
}

/// The record kept of a failed invocation: where it ran, what ran, with
/// which arguments, and what it wrote to standard error.
pub open spec fn failure_v(
    conf: FetchV,
    pkg: Seq<char>,
    a: GitActionV,
    stderr: Option<Seq<char>>,
) -> CommandFailedV {
    CommandFailedV {
        dir: action_dir_v(conf, pkg, a),
        command: conf.git,
        args: conf.git_flags + action_args_spec(a),
        stderr: stderr,
    }
}

impl Fetch {
    /// Creates a handle with working defaults, keeping clones and diffs
    /// in the given directory (the caller's working directory in the
    /// typical use).
    pub fn new(current_dir: String) -> (r: Self)
        ensures
            r@.clone_dir == current_dir@,
            r@.diff_dir == current_dir@,
            r@.git == "git"@,
            r@.git_flags == Seq::<Seq<char>>::empty(),
            r@.aur_url == "https://aur.archlinux.org"@,
    {
        let flags: Vec<String> = Vec::new();
        proof {
            assert(flags.deep_view() =~= Seq::<Seq<char>>::empty());
        }
        Fetch {
            clone_dir: current_dir.clone(),
            diff_dir: current_dir,
            git: String::from_str("git"),
            git_flags: flags,
            aur_url: String::from_str("https://aur.archlinux.org"),
        }
    }

    /// Creates a handle that keeps clones under `<path>/clone` and diffs
    /// under `<path>/diff`.
    pub fn with_cache_dir(path: &str) -> (r: Self)
        ensures
            r@.clone_dir == path_join_spec(path@, "clone"@),
            r@.diff_dir == path_join_spec(path@, "diff"@),
            r@.git == "git"@,
            r@.git_flags == Seq::<Seq<char>>::empty(),
            r@.aur_url == "https://aur.archlinux.org"@,
    {
        let flags: Vec<String> = Vec::new();
        proof {
            assert(flags.deep_view() =~= Seq::<Seq<char>>::empty());
        }
        Fetch {
            clone_dir: path_join(path, "clone"),
            diff_dir: path_join(path, "diff"),
            git: String::from_str("git"),
            git_flags: flags,
            aur_url: String::from_str("https://aur.archlinux.org"),
        }
    }

    /// Creates a handle that keeps both clones and diffs directly under
    /// the given directory.
    pub fn with_combined_cache_dir(path: &str) -> (r: Self)
        ensures
            r@.clone_dir == path@,
            r@.diff_dir == path@,
            r@.git == "git"@,
            r@.git_flags == Seq::<Seq<char>>::empty(),
            r@.aur_url == "https://aur.archlinux.org"@,
    {
        let flags: Vec<String> = Vec::new();
        proof {
            assert(flags.deep_view() =~= Seq::<Seq<char>>::empty());
        }
        Fetch {
            clone_dir: String::from_str(path),
            diff_dir: String::from_str(path),
            git: String::from_str("git"),
            git_flags: flags,
            aur_url: String::from_str("https://aur.archlinux.org"),
        }
    }

    /// The local directory of a package's clone.
    pub fn repo_dir(&self, pkg: &str) -> (r: String)
        ensures
            r@ == path_join_spec(self@.clone_dir, pkg@),
    {
        path_join(self.clone_dir.as_str(), pkg)
    }

    /// The metadata directory whose presence marks a package as cloned.
    /// The unverified shell tests this path to decide between cloning
    /// and fetching.
    pub fn git_meta_dir(&self, pkg: &str) -> (r: String)
        ensures
            r@ == path_join_spec(path_join_spec(self@.clone_dir, pkg@), ".git"@),
    {
        let d = self.repo_dir(pkg);
        path_join(d.as_str(), ".git")
    }

    /// The file a package's saved diff is written to.
    pub fn diff_file(&self, pkg: &str) -> (r: String)
        ensures
            r@ == path_join_spec(self@.diff_dir, pkg@ + ".diff"@),
    {
        let name = String::from_str(pkg).concat(".diff");
        path_join(self.diff_dir.as_str(), name.as_str())
    }

    /// Assembles the full invocation for one requested action: the
    /// configured program, the working directory the action belongs in,
    /// and the global flags followed by the action's own arguments.
    pub fn command(&self, pkg: &str, req: &CmdRequest) -> (c: CmdSpec)
        ensures
            c@.program == self@.git,
            c@.dir == action_dir_v(self@, pkg@, req@.action),
            c@.args == self@.git_flags + action_args_spec(req@.action),
            c@.capture == req.capture,
    {
        let dir = match &req.action {
            GitAction::Clone { .. } => self.clone_dir.clone(),
            _ => self.repo_dir(pkg),
        };
        let mut args = clone_strings(&self.git_flags);
        let mut rest = action_args(&req.action);
        args.append(&mut rest);
        proof {
            assert(args.deep_view() =~= self@.git_flags + action_args_spec(req@.action));
        }
        CmdSpec { program: self.git.clone(), dir, args, capture: req.capture }
    }

    /// The failure record for an action that exited non-zero or could
    /// not be spawned.
    pub fn failure(&self, pkg: &str, action: &GitAction, stderr: Option<String>) -> (r:
        CommandFailed)
        ensures
            r@ == failure_v(self@, pkg@, action@, stderr.deep_view()),
    {
        let dir = match action {
            GitAction::Clone { .. } => self.clone_dir.clone(),
            _ => self.repo_dir(pkg),
        };
        let mut args = clone_strings(&self.git_flags);
        let mut rest = action_args(action);
        args.append(&mut rest);
        proof {
            assert(args.deep_view() =~= self@.git_flags + action_args_spec(action@));
        }
        CommandFailed { dir, command: self.git.clone(), args, stderr }
    }
}

/// Text of one saved diff file: the commit log, a blank line, the diff.
pub fn diff_file_contents(log_out: &str, diff_out: &str) -> (r: String)
    ensures
        r@ == log_out@ + "\n"@ + diff_out@,
{
    let mut r = String::from_str(log_out);
    r.append("\n");
    r.append(diff_out);
    r
}

/// Text of one entry of a diff listing: the commit log, the diff, a
/// trailing newline.
pub fn diff_entry(log_out: &str, diff_out: &str) -> (r: String)
    ensures
        r@ == log_out@ + diff_out@ + "\n"@,
{
    let mut r = String::from_str(log_out);
    r.append(diff_out);
    r.append("\n");
    r
}

/// Which kind of file-system entry a link's source must be for the link
/// to be made.
pub enum LinkKind {
    /// The source must be a directory.
    Dir,
    /// The source must be a regular file.
    File,
}

/// One symbolic link of a review view: make `dest` point at `src`,
/// provided `src` exists as the given kind.
pub struct LinkSpec {
    pub src: String,
    pub dest: String,
    pub kind: LinkKind,
}

/// Mathematical image of a [`LinkSpec`].
pub struct LinkSpecV {
    pub src: Seq<char>,
    pub dest: Seq<char>,
    pub kind: LinkKind,
}

impl View for LinkSpec {
    type V = LinkSpecV;

    open spec fn view(&self) -> LinkSpecV {
        LinkSpecV { src: self.src@, dest: self.dest@, kind: self.kind }
    }
}

impl DeepView for LinkSpec {
    type V = LinkSpecV;

    open spec fn deep_view(&self) -> LinkSpecV {
        self@
    }
}

/// The link that publishes a package's saved diff into a view directory.
pub open spec fn diff_link_v(conf: FetchV, dir: Seq<char>, p: Seq<char>) -> LinkSpecV {
    LinkSpecV {
        src: path_join_spec(conf.diff_dir, p + ".diff"@),
        dest: path_join_spec(dir, p + ".diff"@),
        kind: LinkKind::File,
    }
}

/// The three links that publish a package's clone, its build script and
/// its metadata file into a view directory.
pub open spec fn pkg_links_v(conf: FetchV, dir: Seq<char>, p: Seq<char>) -> Seq<LinkSpecV> {
    seq![
        LinkSpecV {
            src: path_join_spec(conf.clone_dir, p),
            dest: path_join_spec(dir, p),
            kind: LinkKind::Dir,
        },
        LinkSpecV {
            src: path_join_spec(path_join_spec(conf.clone_dir, p), "PKGBUILD"@),
            dest: path_join_spec(dir, p + ".PKGBUILD"@),
            kind: LinkKind::File,
        },
        LinkSpecV {
            src: path_join_spec(path_join_spec(conf.clone_dir, p), ".SRCINFO"@),
            dest: path_join_spec(dir, p + ".SRCINFO"@),
            kind: LinkKind::File,
        },
    ]
}

/// The diff links of all packages in `diffs`, in order.
pub open spec fn diff_links_v(conf: FetchV, dir: Seq<char>, diffs: Seq<Seq<char>>) -> Seq<
    LinkSpecV,
>
    decreases diffs.len(),
{
    if diffs.len() == 0 {
        Seq::empty()
    } else {
        diff_links_v(conf, dir, diffs.drop_last()) + seq![diff_link_v(conf, dir, diffs.last())]
    }
}

/// The package links of all packages in `pkgs`, in order.
pub open spec fn pkg_links_all_v(conf: FetchV, dir: Seq<char>, pkgs: Seq<Seq<char>>) -> Seq<
    LinkSpecV,
>
    decreases pkgs.len(),
{
    if pkgs.len() == 0 {
        Seq::empty()
    } else {
        pkg_links_all_v(conf, dir, pkgs.drop_last()) + pkg_links_v(conf, dir, pkgs.last())
    }
}

/// Every link a review view of `pkgs` and `diffs` consists of: first the
/// saved diffs, then the package directories with their build scripts
/// and metadata files.
pub open spec fn view_links_spec(
    conf: FetchV,
    dir: Seq<char>,
    pkgs: Seq<Seq<char>>,
    diffs: Seq<Seq<char>>,
) -> Seq<LinkSpecV> {
    diff_links_v(conf, dir, diffs) + pkg_links_all_v(conf, dir, pkgs)
}

impl Fetch {
    /// Computes the symbolic links of a review view: one link per saved
    /// diff, and for every package a link to its clone, its build script
    /// and its metadata file.  The unverified shell makes each link
    /// whose source exists as the named kind.
    pub fn view_links(&self, dir: &str, pkgs: &Vec<String>, diffs: &Vec<String>) -> (r: Vec<
        LinkSpec,
    >)
        ensures
            r.deep_view() == view_links_spec(self@, dir@, pkgs.deep_view(), diffs.deep_view()),
    {
        let mut r: Vec<LinkSpec> = Vec::new();
        proof {
            assert(r.deep_view() =~= diff_links_v(self@, dir@, diffs.deep_view().subrange(0, 0)));
        }
        let mut i: usize = 0;
        while i < diffs.len()
            invariant
                0 <= i <= diffs.len(),
                r.deep_view() == diff_links_v(self@, dir@, diffs.deep_view().subrange(0, i as int)),
            decreases diffs.len() - i,
        {
            let p = &diffs[i];
            let with_ext = p.clone().concat(".diff");
            let src = path_join(self.diff_dir.as_str(), with_ext.as_str());
            let dest = path_join(dir, with_ext.as_str());
            r.push(LinkSpec { src, dest, kind: LinkKind::File });
            proof {
                let dv = diffs.deep_view();
                assert(dv.subrange(0, i + 1 as int).drop_last() =~= dv.subrange(0, i as int));
                assert(dv.subrange(0, i + 1 as int).last() == dv[i as int]);
                assert(r.deep_view() =~= diff_links_v(self@, dir@, dv.subrange(0, i + 1 as int)));
            }
            i = i + 1;
        }
        proof {
            assert(diffs.deep_view().subrange(0, diffs.deep_view().len() as int) =~= diffs
                .deep_view());
        }
        let mut j: usize = 0;
        while j < pkgs.len()
            invariant
                0 <= j <= pkgs.len(),
                r.deep_view() == diff_links_v(self@, dir@, diffs.deep_view()) + pkg_links_all_v(
                    self@,
                    dir@,
                    pkgs.deep_view().subrange(0, j as int),
                ),
            decreases pkgs.len() - j,
        {
            let ghost old_dv = r.deep_view();
            let p = &pkgs[j];
            let src = path_join(self.clone_dir.as_str(), p.as_str());
            let dest = path_join(dir, p.as_str());
            r.push(LinkSpec { src, dest, kind: LinkKind::Dir });
            let src = path_join(self.repo_dir(p.as_str()).as_str(), "PKGBUILD");
            let dest = path_join(dir, p.clone().concat(".PKGBUILD").as_str());
            r.push(LinkSpec { src, dest, kind: LinkKind::File });
            let src = path_join(self.repo_dir(p.as_str()).as_str(), ".SRCINFO");
            let dest = path_join(dir, p.clone().concat(".SRCINFO").as_str());
            r.push(LinkSpec { src, dest, kind: LinkKind::File });
            proof {
                let pv = pkgs.deep_view();
                let before = diff_links_v(self@, dir@, diffs.deep_view()) + pkg_links_all_v(
                    self@,
                    dir@,
                    pv.subrange(0, j as int),
                );
                assert(old_dv.len() == before.len());
                assert(r@.len() == old_dv.len() + 3);
                assert(r.deep_view().len() == old_dv.len() + 3);
                assert(pv.subrange(0, j + 1 as int).drop_last() =~= pv.subrange(0, j as int));
                assert(pv.subrange(0, j + 1 as int).last() == pv[j as int]);
                let after = diff_links_v(self@, dir@, diffs.deep_view()) + pkg_links_all_v(
                    self@,
                    dir@,
                    pv.subrange(0, j + 1 as int),
                );
                assert(pkg_links_all_v(self@, dir@, pv.subrange(0, j + 1 as int))
                    == pkg_links_all_v(self@, dir@, pv.subrange(0, j as int)) + pkg_links_v(
                    self@,
                    dir@,
                    pv[j as int],
                ));
                assert forall|k: int| 0 <= k < r.deep_view().len() implies r.deep_view()[k]
                    == after[k] by {
                    assert(r.deep_view()[k] == r@[k]@);
                    if k < old_dv.len() {
                        assert(old_dv[k] == before[k]);
                    }
                }
                assert(r.deep_view() =~= after);
            }
            j = j + 1;
        }
        proof {
            assert(pkgs.deep_view().subrange(0, pkgs.deep_view().len() as int) =~= pkgs
                .deep_view());
        }
        r
    }
}

} // verus!
