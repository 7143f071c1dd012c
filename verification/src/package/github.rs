//! Manifest entries for repositories on GitHub, and the pin expressions
//! that fix which state of a repository is meant.

use super::config::Overlay;
use crate::error::ResolveError;
use crate::text::{chars_of, find_char, split_once, str_eq, trimmed, trimmed_string};
use vstd::prelude::*;

verus! {

/// Which ref of a repository to follow.
#[derive(Debug, Clone, PartialEq, Eq)]
pub enum GitHubLatest {
    FromRelease(String),
    FromBranch(String),
}

/// Which ref of a repository to stay at.
#[derive(Debug, Clone, PartialEq, Eq)]
pub enum GitHubPin {
    ToRelease(String),
    ToCommit(String),
    ToTag(String),
}

/// A ref to follow, as mathematical values.
pub enum LatestModel {
    FromRelease(Seq<char>),
    FromBranch(Seq<char>),
}

/// A ref to stay at, as mathematical values.
pub enum PinModel {
    ToRelease(Seq<char>),
    ToCommit(Seq<char>),
    ToTag(Seq<char>),
}

impl View for GitHubLatest {
    type V = LatestModel;

    open spec fn view(&self) -> LatestModel {
        match self {
            GitHubLatest::FromRelease(r) => LatestModel::FromRelease(r@),
            GitHubLatest::FromBranch(b) => LatestModel::FromBranch(b@),
        }
    }
}

impl View for GitHubPin {
    type V = PinModel;

    open spec fn view(&self) -> PinModel {
        match self {
            GitHubPin::ToRelease(r) => PinModel::ToRelease(r@),
            GitHubPin::ToCommit(c) => PinModel::ToCommit(c@),
            GitHubPin::ToTag(t) => PinModel::ToTag(t@),
        }
    }
}

/// What a pin expression means. It is a kind, a colon and a ref, with white
/// space allowed around both; the kind is `commit`, `release` or `tag`.
/// Anything else is no pin.
pub open spec fn parsed_pin(s: Seq<char>) -> Result<PinModel, ResolveError> {
    match split_once(s, ':') {
        Some((kind, to)) => if trimmed(kind) == "commit"@ {
            Ok(PinModel::ToCommit(trimmed(to)))
        } else if trimmed(kind) == "release"@ {
            Ok(PinModel::ToRelease(trimmed(to)))
        } else if trimmed(kind) == "tag"@ {
            Ok(PinModel::ToTag(trimmed(to)))
        } else {
            Err(ResolveError::InvalidPin)
        },
        None => Err(ResolveError::InvalidPin),
    }
}

/// What an expression for the latest ref means. It is a kind, a colon and a
/// name, with white space allowed around both; the kind is `branch` or
/// `release`. Anything else is refused like a malformed pin.
pub open spec fn parsed_latest(s: Seq<char>) -> Result<LatestModel, ResolveError> {
    match split_once(s, ':') {
        Some((kind, from)) => if trimmed(kind) == "branch"@ {
            Ok(LatestModel::FromBranch(trimmed(from)))
        } else if trimmed(kind) == "release"@ {
            Ok(LatestModel::FromRelease(trimmed(from)))
        } else {
            Err(ResolveError::InvalidPin)
        },
        None => Err(ResolveError::InvalidPin),
    }
}

/// The trimmed texts before and after the first colon.
fn kind_and_ref(s: &str) -> (r: Option<(String, String)>)
    ensures
        match r {
            Some((kind, to)) => split_once(s@, ':') matches Some((k, t)) && kind@ == trimmed(k)
                && to@ == trimmed(t),
            None => split_once(s@, ':') is None,
        },
{
    let chars = chars_of(s);
    let n = chars.len();
    proof {
        assert(chars@.subrange(0, n as int) =~= chars@);
    }
    match find_char(&chars, ':', 0, n) {
        None => None,
        Some(colon) => {
            proof {
                assert(chars@.take(colon as int) =~= chars@.subrange(0, colon as int));
                assert(chars@.skip(colon + 1) =~= chars@.subrange(colon + 1, n as int));
            }
            Some((trimmed_string(&chars, 0, colon), trimmed_string(&chars, colon + 1, n)))
        },
    }
}

impl GitHubPin {
    /// Reads a pin expression such as `commit:abcdef`.
    pub fn parse(s: &str) -> (r: Result<GitHubPin, ResolveError>)
        ensures
            match r {
                Ok(pin) => parsed_pin(s@) == Ok::<PinModel, ResolveError>(pin@),
                Err(e) => parsed_pin(s@) == Err::<PinModel, ResolveError>(e),
            },
    {
        match kind_and_ref(s) {
            None => Err(ResolveError::InvalidPin),
            Some((kind, to)) => {
                if str_eq(kind.as_str(), "commit") {
                    Ok(GitHubPin::ToCommit(to))
                } else if str_eq(kind.as_str(), "release") {
                    Ok(GitHubPin::ToRelease(to))
                } else if str_eq(kind.as_str(), "tag") {
                    Ok(GitHubPin::ToTag(to))
                } else {
                    Err(ResolveError::InvalidPin)
                }
            },
        }
    }

    /// The ref that the pin names.
    pub fn target(&self) -> (r: &String)
        ensures
            *r == match *self {
                GitHubPin::ToRelease(t) => t,
                GitHubPin::ToCommit(t) => t,
                GitHubPin::ToTag(t) => t,
            },
    {
        match self {
            GitHubPin::ToRelease(t) => t,
            GitHubPin::ToCommit(t) => t,
            GitHubPin::ToTag(t) => t,
        }
    }
}

impl GitHubLatest {
    /// Reads an expression for the latest ref such as `branch:main`.
    pub fn parse(s: &str) -> (r: Result<GitHubLatest, ResolveError>)
        ensures
            match r {
                Ok(latest) => parsed_latest(s@) == Ok::<LatestModel, ResolveError>(latest@),
                Err(e) => parsed_latest(s@) == Err::<LatestModel, ResolveError>(e),
            },
    {
        match kind_and_ref(s) {
            None => Err(ResolveError::InvalidPin),
            Some((kind, from)) => {
                if str_eq(kind.as_str(), "branch") {
                    Ok(GitHubLatest::FromBranch(from))
                } else if str_eq(kind.as_str(), "release") {
                    Ok(GitHubLatest::FromRelease(from))
                } else {
                    Err(ResolveError::InvalidPin)
                }
            },
        }
    }

    /// The ref that is followed.
    pub fn target(&self) -> (r: &String)
        ensures
            *r == match *self {
                GitHubLatest::FromRelease(t) => t,
                GitHubLatest::FromBranch(t) => t,
            },
    {
        match self {
            GitHubLatest::FromRelease(t) => t,
            GitHubLatest::FromBranch(t) => t,
        }
    }
}

/// An entry written as a table.
#[derive(Debug, Clone, PartialEq, Eq)]
pub struct DetailedTomlGitHubPackage {
    /// The repository, as `owner/name`.
    pub src: String,
    /// The ref to follow.
    pub latest: Option<GitHubLatest>,
    /// The ref to stay at.
    pub pin: Option<GitHubPin>,
    /// A path inside the archive.
    pub extract: Option<String>,
    /// Keys and values that are handed through as they are.
    pub passthru: Option<Vec<(String, String)>>,
    /// The overlay that the package belongs to.
    pub overlay: Option<Overlay>,
}

/// An entry of the manifest: a bare `owner/name`, or a table.
#[derive(Debug, Clone, PartialEq, Eq)]
pub enum TomlGitHubPackage {
    /// `package = "<owner/name>"`
    Simple(String),
    /// `package = { src = "<owner/name>", .. }`
    Detailed(DetailedTomlGitHubPackage),
}

impl TomlGitHubPackage {
    /// The repository that the entry names, as `owner/name`.
    pub open spec fn id(self) -> String {
        match self {
            TomlGitHubPackage::Simple(id) => id,
            TomlGitHubPackage::Detailed(details) => details.src,
        }
    }

    /// The repository that the entry names.
    pub fn repository(&self) -> (r: &String)
        ensures
            *r == self.id(),
    {
        match self {
            TomlGitHubPackage::Simple(id) => id,
            TomlGitHubPackage::Detailed(details) => &details.src,
        }
    }
}

} // verus!
