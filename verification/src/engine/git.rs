//! Where a Git repository keeps its files.

use vstd::prelude::*;
use crate::engine::paths::{
    absolute_path, joined_path, path_exists, path_is_absolute, path_is_dir, path_join,
};
use crate::engine::error::Error;
use crate::text::{lines, lines_of, spec_trim, trim};

verus! {

/// A Git repository, known by its root and its `.git` directory.
#[derive(Debug, Clone)]
pub struct GitRepo {
    root: String,
    git_dir: String,
}

impl GitRepo {
    /// The root, as text.
    pub closed spec fn spec_root(&self) -> Seq<char> {
        self.root@
    }

    /// The `.git` directory, as text.
    pub closed spec fn spec_git_dir(&self) -> Seq<char> {
        self.git_dir@
    }

    /// The repository with this root and this `.git` directory.
    pub fn new(root: &str, git_dir: &str) -> (repo: Self)
        ensures
            repo.spec_root() == root@,
            repo.spec_git_dir() == git_dir@,
    {
        GitRepo { root: root.to_string(), git_dir: git_dir.to_string() }
    }

    /// The `.git` directory of a repository, given its root and what Git
    /// reports: what is reported where that is absolute, and that adjoined to
    /// the root where it is not.
    pub open spec fn spec_located_git_dir(root: Seq<char>, reported: Seq<char>) -> Seq<char> {
        if absolute_path(reported) {
            reported
        } else {
            joined_path(root, reported)
        }
    }

    /// The repository that Git reports: its root, and its `.git` directory as
    /// reported where that is absolute, and below the root where it is not.
    pub fn located(root: &str, reported_git_dir: &str) -> (repo: Self)
        ensures
            repo.spec_root() == root@,
            repo.spec_git_dir() == Self::spec_located_git_dir(root@, reported_git_dir@),
    {
        let git_dir = if path_is_absolute(reported_git_dir) {
            reported_git_dir.to_string()
        } else {
            path_join(root, reported_git_dir)
        };
        GitRepo { root: root.to_string(), git_dir }
    }

    /// The root directory of the repository.
    pub fn root(&self) -> (root: &str)
        ensures
            root@ == self.spec_root(),
    {
        self.root.as_str()
    }

    /// The `.git` directory of the repository.
    pub fn git_dir(&self) -> (git_dir: &str)
        ensures
            git_dir@ == self.spec_git_dir(),
    {
        self.git_dir.as_str()
    }

    /// The repository that `git rev-parse --show-toplevel --git-dir` reports:
    /// its first line is the root and its second the `.git` directory. With
    /// fewer than two lines there is no repository.
    pub fn from_rev_parse(output: &str) -> (found: Result<Self, Error>)
        ensures
            match found {
                Ok(repo) => lines_of(output@).len() >= 2 && repo.spec_root() == lines_of(
                    output@,
                )[0] && repo.spec_git_dir() == Self::spec_located_git_dir(
                    lines_of(output@)[0],
                    lines_of(output@)[1],
                ),
                Err(error) => lines_of(output@).len() < 2 && error is NotGitRepo,
            },
    {
        let found = lines(output);
        if found.len() < 2 {
            return Err(Error::NotGitRepo);
        }
        assert(found.deep_view()[0] == found@[0]@);
        assert(found.deep_view()[1] == found@[1]@);
        Ok(GitRepo::located(found[0].as_str(), found[1].as_str()))
    }

    /// The hooks path that is configured, given what `git config --get
    /// core.hooksPath` printed, if it printed anything: what was printed,
    /// trimmed, unless that is empty.
    pub fn configured_hooks_path(printed: Option<&str>) -> (path: Option<&str>)
        ensures
            match path {
                Some(p) => printed matches Some(text) && p@ == spec_trim(text@) && p@.len() > 0,
                None => printed matches Some(text) ==> spec_trim(text@).len() == 0,
            },
    {
        match printed {
            Some(text) => {
                let path = trim(text);
                if path.is_empty() {
                    None
                } else {
                    Some(path)
                }
            },
            None => None,
        }
    }

    /// The hooks path that is configured, given what was printed: what was
    /// printed, trimmed, unless that is empty.
    pub open spec fn spec_configured_hooks_path(printed: Option<Seq<char>>) -> Option<Seq<char>> {
        match printed {
            Some(text) => if spec_trim(text).len() > 0 {
                Some(spec_trim(text))
            } else {
                None
            },
            None => None,
        }
    }

    /// The directory of the hooks, given what was printed for
    /// `core.hooksPath`: the configured path where it is absolute, that path
    /// adjoined to the root where it is not, and `hooks` adjoined to the `.git`
    /// directory where none is configured.
    pub open spec fn spec_hooks_dir(&self, printed: Option<Seq<char>>) -> Seq<char> {
        match Self::spec_configured_hooks_path(printed) {
            Some(path) => if absolute_path(path) {
                path
            } else {
                joined_path(self.spec_root(), path)
            },
            None => joined_path(self.spec_git_dir(), "hooks"@),
        }
    }

    /// The directory of the hooks, given what `git config --get
    /// core.hooksPath` printed, if it printed anything: the configured path
    /// where it is absolute, that path below the root where it is not, and
    /// `hooks` below the `.git` directory where none is configured.
    pub fn hooks_dir(&self, configured: Option<&str>) -> (dir: String)
        ensures
            dir@ == self.spec_hooks_dir(
                match configured {
                    Some(printed) => Some(printed@),
                    None => None,
                },
            ),
    {
        match Self::configured_hooks_path(configured) {
            Some(path) => {
                if path_is_absolute(path) {
                    path.to_string()
                } else {
                    path_join(self.root.as_str(), path)
                }
            },
            None => path_join(self.git_dir.as_str(), "hooks"),
        }
    }

    /// The name of the current branch, given what `git rev-parse --abbrev-ref
    /// HEAD` printed.
    pub fn branch_name(printed: &str) -> (name: String)
        ensures
            name@ == spec_trim(printed@),
    {
        trim(printed).to_string()
    }

    /// The name of the main branch, given whether `origin/main` and
    /// `origin/master` exist: `main` where it exists, else `master` where that
    /// exists, and `main` where neither does.
    pub fn main_branch_name(main_exists: bool, master_exists: bool) -> (name: &'static str)
        ensures
            name@ == if !main_exists && master_exists {
                "master"@
            } else {
                "main"@
            },
    {
        if main_exists {
            "main"
        } else if master_exists {
            "master"
        } else {
            "main"
        }
    }

    /// Whether there are uncommitted changes, given what `git status
    /// --porcelain` printed: there are, unless it printed nothing.
    pub fn has_changes(printed: &str) -> (changed: bool)
        ensures
            changed == (printed@.len() > 0),
    {
        !printed.is_empty()
    }

    /// The paths below `root` of the lines that are not empty, in the order of
    /// the lines.
    pub open spec fn spec_staged(root: Seq<char>, lines: Seq<Seq<char>>) -> Seq<Seq<char>>
        decreases lines.len(),
    {
        if lines.len() == 0 {
            Seq::empty()
        } else if lines.last().len() > 0 {
            Self::spec_staged(root, lines.drop_last()).push(joined_path(root, lines.last()))
        } else {
            Self::spec_staged(root, lines.drop_last())
        }
    }

    /// The staged files, given what `git diff --cached --name-only` printed:
    /// one path below the root for each line that is not empty, in the order
    /// of the lines.
    pub fn staged_paths(&self, printed: &str) -> (paths: Vec<String>)
        ensures
            paths.deep_view() == Self::spec_staged(self.spec_root(), lines_of(printed@)),
            paths.len() == crate::search::count_where(lines_of(printed@), not_empty()),
    {
        let found = lines(printed);
        let ghost all = found.deep_view();
        let ghost root = self.spec_root();
        let mut paths: Vec<String> = Vec::new();
        let mut i: usize = 0;
        assert(all.take(0) =~= Seq::<Seq<char>>::empty());
        assert(paths.deep_view() =~= Seq::<Seq<char>>::empty());
        while i < found.len()
            invariant
                i <= found.len(),
                all == found.deep_view(),
                root == self.spec_root(),
                paths.deep_view() == Self::spec_staged(root, all.take(i as int)),
                paths.len() == crate::search::count_where(all.take(i as int), not_empty()),
                paths.len() <= i,
            decreases found.len() - i,
        {
            assert(all.take(i + 1).drop_last() =~= all.take(i as int));
            assert(all.take(i + 1).last() == found@[i as int]@);
            let ghost before = paths.deep_view();
            if !found[i].as_str().is_empty() {
                let path = path_join(self.root.as_str(), found[i].as_str());
                let ghost added = path@;
                paths.push(path);
                assert(paths.deep_view() =~= before.push(added));
            }
            i = i + 1;
        }
        assert(all.take(i as int) =~= all);
        paths
    }

    /// The path of `relative_path` below the root.
    pub fn path_below(&self, relative_path: &str) -> (path: String)
        ensures
            path@ == joined_path(self.spec_root(), relative_path@),
    {
        path_join(self.root.as_str(), relative_path)
    }

    /// The path of the hook called `hook_name`, given what `git config --get
    /// core.hooksPath` printed, if it printed anything: the name adjoined to
    /// the directory of the hooks.
    pub fn hook_path(&self, hook_name: &str, configured: Option<&str>) -> (path: String)
        ensures
            path@ == joined_path(
                self.spec_hooks_dir(
                    match configured {
                        Some(printed) => Some(printed@),
                        None => None,
                    },
                ),
                hook_name@,
            ),
    {
        let dir = self.hooks_dir(configured);
        path_join(dir.as_str(), hook_name)
    }

    /// Whether `relative_path` exists below the root: the file system is asked
    /// about [`GitRepo::path_below`] of it.
    pub fn file_exists(&self, relative_path: &str) -> bool {
        let path = self.path_below(relative_path);
        path_exists(path.as_str())
    }

    /// Whether `relative_path` is a directory below the root: the file system
    /// is asked about [`GitRepo::path_below`] of it.
    pub fn dir_exists(&self, relative_path: &str) -> bool {
        let path = self.path_below(relative_path);
        path_is_dir(path.as_str())
    }
}

/// The texts that are not empty.
pub open spec fn not_empty() -> spec_fn(Seq<char>) -> bool {
    |text: Seq<char>| text.len() > 0
}

} // verus!
