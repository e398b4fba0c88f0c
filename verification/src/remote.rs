use vstd::prelude::*;

use crate::fetch::{Fetch, Repo, RepoV};

verus! {

/// Whether `base` is a well-formed absolute URL.
pub uninterp spec fn url_parses(base: Seq<char>) -> bool;

/// The serialization of the URL `base` after its path is replaced by
/// `path` (percent-encoding what needs it).
pub uninterp spec fn url_with_path(base: Seq<char>, path: Seq<char>) -> Seq<char>;

/// Relies on `url::Url::parse`, `url::Url::set_path` and
/// `String::from(url::Url)`: parsing succeeds or fails on the text of
/// `base` alone, and the rewritten serialization depends on the two
/// strings alone.
#[verifier::external_body]
fn url_join(base: &str, path: &str) -> (r: Option<String>)
    ensures
        r is Some <==> url_parses(base@),
        r matches Some(s) ==> s@ == url_with_path(base@, path@),
{
    match url::Url::parse(base) {
        Ok(mut u) => {
            u.set_path(path);
            Some(String::from(u))
        },
        Err(_) => None,
    }
}

/// The address a single package is cloned from: the configured base
/// with the package's name as its path.  `None` when the configured
/// base is not a well-formed URL.
pub fn repo_url(conf: &Fetch, pkg: &str) -> (r: Option<String>)
    ensures
        r is Some <==> url_parses(conf@.aur_url),
        r matches Some(s) ==> s@ == url_with_path(conf@.aur_url, pkg@),
{
    url_join(conf.aur_url.as_str(), pkg)
}

impl Fetch {
    /// Expands package names into repositories: each package's clone
    /// address is the configured base URL with the package name as its
    /// path, and its directory name is the package name itself.  `None`
    /// when the configured base is not a well-formed URL (with no
    /// packages there is nothing to check and the expansion is empty).
    pub fn repos_for_pkgs(&self, pkgs: &Vec<String>) -> (r: Option<Vec<Repo>>)
        ensures
            pkgs@.len() > 0 ==> (r is Some <==> url_parses(self@.aur_url)),
            pkgs@.len() == 0 ==> (r matches Some(v) && v@.len() == 0),
            r matches Some(v) ==> {
                &&& v.deep_view().len() == pkgs.deep_view().len()
                &&& forall|i: int|
                    0 <= i < pkgs.deep_view().len() ==> #[trigger] v.deep_view()[i].name
                        == pkgs.deep_view()[i]
                &&& forall|i: int|
                    0 <= i < pkgs.deep_view().len() ==> #[trigger] v.deep_view()[i].url
                        == url_with_path(self@.aur_url, pkgs.deep_view()[i])
            },
    {
        let mut v: Vec<Repo> = Vec::new();
        let mut i: usize = 0;
        while i < pkgs.len()
            invariant
                0 <= i <= pkgs.len(),
                v.deep_view().len() == i,
                i > 0 ==> url_parses(self@.aur_url),
                forall|k: int|
                    0 <= k < i ==> #[trigger] v.deep_view()[k].name == pkgs.deep_view()[k],
                forall|k: int|
                    0 <= k < i ==> #[trigger] v.deep_view()[k].url == url_with_path(
                        self@.aur_url,
                        pkgs.deep_view()[k],
                    ),
            decreases pkgs.len() - i,
        {
            let name = pkgs[i].clone();
            match repo_url(self, name.as_str()) {
                Some(url) => {
                    let ghost old_dv = v.deep_view();
                    v.push(Repo { url, name });
                    proof {
                        assert(v@.len() == old_dv.len() + 1);
                        assert(v.deep_view().len() == old_dv.len() + 1);
                        assert(forall|k: int|
                            0 <= k < old_dv.len() ==> #[trigger] v.deep_view()[k] == old_dv[k]);
                        assert(v.deep_view()[i as int] == v@[i as int]@);
                    }
                },
                None => {
                    return None;
                },
            }
            i = i + 1;
        }
        Some(v)
    }
}

impl DeepView for Repo {
    type V = RepoV;

    open spec fn deep_view(&self) -> RepoV {
        self@
    }
}

} // verus!
