//! The resolver that roots every read under one directory.

use vstd::prelude::*;
use crate::error::{LoadError, LoadErrorView};
use crate::path::{join, join_spec, resolve_path, resolve_spec};

verus! {

/// The resolution root of a resolver that was given none.
pub const DEFAULT_ROOT: &'static str = "assets";

/// Turns the relative paths that a document holds into locations under
/// the resolution root. The root is fixed when the resolver is made.
#[derive(Clone, Debug, PartialEq, Eq)]
pub struct PathResolver {
    root: String,
}

impl View for PathResolver {
    type V = Seq<char>;

    /// The resolution root.
    closed spec fn view(&self) -> Seq<char> {
        self.root@
    }
}

impl PathResolver {
    /// A resolver with the given resolution root.
    pub fn new(root: String) -> (resolver: Self)
        ensures
            resolver@ == root@,
    {
        PathResolver { root }
    }

    /// The resolution root.
    pub fn root(&self) -> (root: &str)
        ensures
            root@ == self@,
    {
        self.root.as_str()
    }

    /// The location at which the bytes of `path` are read: `path` behind
    /// the resolution root.
    pub fn target(&self, path: &str) -> (target: String)
        ensures
            target@ == join_spec(self@, path@),
    {
        join(self.root.as_str(), path)
    }

    /// The path that `path` names when it is met in the document at
    /// `base`. Nothing is read, and the resolution root plays no part.
    pub fn resolve_path(&self, base: &str, path: &str) -> (resolved: String)
        ensures
            resolved@ == resolve_spec(base@, path@),
    {
        resolve_path(base, path)
    }

    /// What a read of `path` returns, given what the store held at the
    /// target: the bytes, or an I/O error that names the target.
    pub fn read_result(&self, path: &str, stored: Option<Vec<u8>>) -> (result: Result<
        Vec<u8>,
        LoadError,
    >)
        ensures
            match stored {
                Some(bytes) => result == Ok::<Vec<u8>, LoadError>(bytes),
                None => result is Err && result->Err_0@ == (LoadErrorView::Io {
                    path: join_spec(self@, path@),
                }),
            },
    {
        match stored {
            Some(bytes) => Ok(bytes),
            None => Err(LoadError::Io { path: self.target(path) }),
        }
    }
}

impl Default for PathResolver {
    /// A resolver rooted at [`DEFAULT_ROOT`].
    fn default() -> (resolver: Self)
        ensures
            resolver@ == DEFAULT_ROOT@,
    {
        PathResolver { root: DEFAULT_ROOT.to_owned() }
    }
}

} // verus!
