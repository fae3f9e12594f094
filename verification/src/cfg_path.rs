//! A path as it stands in a configuration file: either a text in which a
//! leading tilde and certain variables are expanded, or a literal path.
//!
//! The supported variables are:
//!   * `ARTI_CACHE`: an arti-specific cache directory.
//!   * `ARTI_CONFIG`: an arti-specific configuration directory.
//!   * `ARTI_SHARED_DATA`: an arti-specific directory in the user's "shared
//!     data" space.
//!   * `ARTI_LOCAL_DATA`: an arti-specific directory in the user's "local
//!     data" space.
//!   * `USER_HOME`: the user's home directory.

use crate::text::str_equal;
use vstd::string::StrSliceExecFns;
use directories::{BaseDirs, ProjectDirs};
use std::path::PathBuf;
use vstd::prelude::*;
use vstd::string::StringExecFns;

verus! {

/// An owned path of the host.
#[verifier::external_type_specification]
#[verifier::external_body]
pub struct ExPathBuf(PathBuf);

/// The text of a path, if the path is valid Unicode.
pub uninterp spec fn pathbuf_text(path: PathBuf) -> Option<Seq<char>>;

/// A path as the debug formatter writes it: quoted and escaped.
pub uninterp spec fn pathbuf_debug(path: PathBuf) -> Seq<char>;

/// A text as the debug formatter writes it: quoted and escaped.
pub uninterp spec fn debug_text(text: Seq<char>) -> Seq<char>;

/// The project's directories, each as text, or `None` where the path is not
/// valid Unicode.
#[derive(Debug, Clone, PartialEq, Eq)]
pub struct ProjectDirTexts {
    pub cache: Option<String>,
    pub config: Option<String>,
    pub data: Option<String>,
    pub data_local: Option<String>,
}

/// The user's home directory: as text, or `None` where the path is not valid
/// Unicode, and as it is displayed, with a replacement character for what
/// is not.
#[derive(Debug, Clone, PartialEq, Eq)]
pub struct BaseDirTexts {
    pub home: Option<String>,
    pub home_shown: String,
}

/// What the host says of the directories that expansion refers to. Each
/// half is `None` where the host has no answer.
#[derive(Debug, Clone, PartialEq, Eq)]
pub struct KnownDirs {
    pub project: Option<ProjectDirTexts>,
    pub base: Option<BaseDirTexts>,
}

/// An error that has occurred while expanding a path.
#[derive(Debug, Clone, PartialEq, Eq)]
#[non_exhaustive]
pub enum CfgPathError {
    /// The path contained a variable we didn't recognize.
    UnknownVar(String),
    /// We couldn't construct a ProjectDirs object.
    NoProjectDirs,
    /// We couldn't construct a BaseDirs object.
    NoBaseDirs,
    /// We couldn't convert a variable to UTF-8.
    BadUtf8(String),
    /// We couldn't convert a string to a valid path on the OS.
    InvalidString(String),
}

/// The broad kind of a path error.
#[derive(Debug, Clone, Copy, PartialEq, Eq, Structural)]
pub enum CfgErrorKind {
    /// The configuration is not valid.
    InvalidConfig,
    /// The user's directories could not be found.
    NoHomeDirectory,
}

/// The variables that expansion knows.
#[derive(Debug, Clone, Copy, PartialEq, Eq, Structural)]
pub enum KnownVar {
    Cache,
    Config,
    SharedData,
    LocalData,
    UserHome,
}

/// The variable that a name stands for, if any.
pub open spec fn known_var(name: Seq<char>) -> Option<KnownVar> {
    if name == "ARTI_CACHE"@ {
        Some(KnownVar::Cache)
    } else if name == "ARTI_CONFIG"@ {
        Some(KnownVar::Config)
    } else if name == "ARTI_SHARED_DATA"@ {
        Some(KnownVar::SharedData)
    } else if name == "ARTI_LOCAL_DATA"@ {
        Some(KnownVar::LocalData)
    } else if name == "USER_HOME"@ {
        Some(KnownVar::UserHome)
    } else {
        None
    }
}

/// What the expansion of a path text comes to, given what the host says of
/// the directories, on a host with the given path separator. The separator
/// matters for a tilde before a backslash, which only a host that separates
/// by backslashes expands.
pub uninterp spec fn shell_expansion(input: Seq<char>, dirs: KnownDirs, separator: char) -> Result<
    Seq<char>,
    CfgPathError,
>;

/// Whether a `$` stands directly before a character outside ASCII. Such a
/// text names no variable and is not expanded.
pub open spec fn dollar_before_non_ascii(text: Seq<char>) -> bool {
    exists|i: int| 0 <= i < text.len() - 1 && #[trigger] text[i] == '$' && text[i + 1] as u32 >= 128
}

/// Whether `path` is what expanding `text` gives: the error
/// `InvalidString` for a text with a `$` before a character outside ASCII,
/// else the path with the expanded text, or the error of the expansion.
pub open spec fn expands_to(
    text: Seq<char>,
    dirs: KnownDirs,
    separator: char,
    path: Result<PathBuf, CfgPathError>,
) -> bool {
    if dollar_before_non_ascii(text) {
        path matches Err(CfgPathError::InvalidString(refused)) && refused@ == text
    } else {
        match shell_expansion(text, dirs, separator) {
            Ok(expanded) => (path matches Ok(p) && pathbuf_text(p) == Some(expanded)),
            Err(e) => path == Err::<PathBuf, CfgPathError>(e),
        }
    }
}

/// Calls `ProjectDirs::from` and reads the four directories, each through
/// `Path::to_str`. The answer depends on the host and the user, so nothing
/// is claimed of it.
#[verifier::external_body]
fn project_dirs_of(qualifier: &str, organization: &str, application: &str) -> (dirs: Option<
    ProjectDirTexts,
>) {
    ProjectDirs::from(qualifier, organization, application).map(
        |p| ProjectDirTexts {
            cache: p.cache_dir().to_str().map(str::to_owned),
            config: p.config_dir().to_str().map(str::to_owned),
            data: p.data_dir().to_str().map(str::to_owned),
            data_local: p.data_local_dir().to_str().map(str::to_owned),
        },
    )
}

/// Calls `BaseDirs::new` and reads the home directory, through
/// `Path::to_str` and through `Path::display`. The answer depends on the host
/// and the user, so nothing is claimed of it.
#[verifier::external_body]
fn base_dirs() -> (dirs: Option<BaseDirTexts>) {
    BaseDirs::new().map(
        |b| BaseDirTexts {
            home: b.home_dir().to_str().map(str::to_owned),
            home_shown: b.home_dir().display().to_string(),
        },
    )
}

/// The directories of the Arti project, as the host reports them now.
fn project_dirs() -> (dirs: Option<ProjectDirTexts>) {
    project_dirs_of("org", "torproject", "Arti")
}

/// What the host says now of the directories that expansion refers to.
pub fn known_dirs() -> (dirs: KnownDirs) {
    KnownDirs { project: project_dirs(), base: base_dirs() }
}

/// Calls `shellexpand::full_with_context`, which asks `get_home` for the
/// home directory and `get_env` for each variable, and hands on the first
/// error of `get_env`; returns beside its answer the host's
/// `std::path::MAIN_SEPARATOR`. Trusted, for a text without a `$` before a
/// character outside ASCII: the answer is a function of the text, of the
/// directories and of that separator.
#[verifier::external_body]
fn shell_expand(input: &str, dirs: &KnownDirs) -> (expanded: (Result<String, CfgPathError>, char))
    requires
        !dollar_before_non_ascii(input@),
    ensures
        match expanded.0 {
            Ok(text) => shell_expansion(input@, *dirs, expanded.1) == Ok::<
                Seq<char>,
                CfgPathError,
            >(text@),
            Err(e) => shell_expansion(input@, *dirs, expanded.1) == Err::<Seq<char>, CfgPathError>(
                e,
            ),
        },
{
    let expanded = shellexpand::full_with_context(input, || get_home(dirs), |var| get_env(var, dirs))
        .map(|text| text.into_owned())
        .map_err(|e| e.cause);
    (expanded, std::path::MAIN_SEPARATOR)
}

/// Calls `PathBuf::from` on a `String`. Trusted: the path has that text.
#[verifier::external_body]
fn path_from_string(text: String) -> (path: PathBuf)
    ensures
        pathbuf_text(path) == Some(text@),
{
    PathBuf::from(text)
}

/// `PathBuf::clone`. Trusted: the copy is the same path.
pub assume_specification[ <PathBuf as Clone>::clone ](path: &PathBuf) -> (copy: PathBuf)
    ensures
        copy == *path,
;

/// Formats a path with `{:?}`.
#[verifier::external_body]
fn path_debug(path: &PathBuf) -> (text: String)
    ensures
        text@ == pathbuf_debug(*path),
{
    format!("{:?}", path)
}

/// Formats a text with `{:?}`.
#[verifier::external_body]
fn str_debug(value: &str) -> (text: String)
    ensures
        text@ == debug_text(value@),
{
    format!("{:?}", value)
}

/// Shellexpand helper: return the user's home directory if we can, as it is
/// displayed.
pub fn get_home(dirs: &KnownDirs) -> (home: Option<String>)
    ensures
        match dirs.base {
            Some(base) => (home matches Some(text) && text@ == base.home_shown@),
            None => home is None,
        },
{
    match &dirs.base {
        Some(base) => Some(base.home_shown.clone()),
        None => None,
    }
}

/// The variable that a name stands for, if any.
pub fn lookup_var(var: &str) -> (known: Option<KnownVar>)
    ensures
        known == known_var(var@),
{
    if str_equal(var, "ARTI_CACHE") {
        Some(KnownVar::Cache)
    } else if str_equal(var, "ARTI_CONFIG") {
        Some(KnownVar::Config)
    } else if str_equal(var, "ARTI_SHARED_DATA") {
        Some(KnownVar::SharedData)
    } else if str_equal(var, "ARTI_LOCAL_DATA") {
        Some(KnownVar::LocalData)
    } else if str_equal(var, "USER_HOME") {
        Some(KnownVar::UserHome)
    } else {
        None
    }
}

/// The directory that a known variable names: missing where the host has no
/// answer for its half, and `Ok(None)` where the path is not valid Unicode.
pub open spec fn dir_of(which: KnownVar, dirs: KnownDirs) -> Result<Option<String>, CfgPathError> {
    match which {
        KnownVar::UserHome => match dirs.base {
            Some(base) => Ok(base.home),
            None => Err(CfgPathError::NoBaseDirs),
        },
        _ => match dirs.project {
            Some(project) => Ok(
                match which {
                    KnownVar::Cache => project.cache,
                    KnownVar::Config => project.config,
                    KnownVar::SharedData => project.data,
                    _ => project.data_local,
                },
            ),
            None => Err(CfgPathError::NoProjectDirs),
        },
    }
}

/// Shellexpand helper: expand a shell variable if we can. Never returns
/// `Ok(None)`: an absent variable is always an error.
pub fn get_env(var: &str, dirs: &KnownDirs) -> (value: Result<Option<String>, CfgPathError>)
    ensures
        match known_var(var@) {
            None => (value matches Err(CfgPathError::UnknownVar(name)) && name@ == var@),
            Some(which) => match dir_of(which, *dirs) {
                Err(e) => value == Err::<Option<String>, CfgPathError>(e),
                Ok(None) => (value matches Err(CfgPathError::BadUtf8(name)) && name@ == var@),
                Ok(Some(text)) => (value matches Ok(Some(found)) && found@ == text@),
            },
        },
{
    let which = match lookup_var(var) {
        Some(which) => which,
        None => {
            return Err(CfgPathError::UnknownVar(var.to_owned()));
        },
    };
    let text: &Option<String> = match which {
        KnownVar::UserHome => match &dirs.base {
            Some(base) => &base.home,
            None => {
                return Err(CfgPathError::NoBaseDirs);
            },
        },
        _ => match &dirs.project {
            Some(project) => match which {
                KnownVar::Cache => &project.cache,
                KnownVar::Config => &project.config,
                KnownVar::SharedData => &project.data,
                _ => &project.data_local,
            },
            None => {
                return Err(CfgPathError::NoProjectDirs);
            },
        },
    };
    match text {
        Some(s) => Ok(Some(s.clone())),
        None => Err(CfgPathError::BadUtf8(var.to_owned())),
    }
}

/// Whether a `$` stands directly before a character outside ASCII.
pub fn has_dollar_before_non_ascii(text: &str) -> (found: bool)
    ensures
        found == dollar_before_non_ascii(text@),
{
    let n = text.unicode_len();
    if n == 0 {
        return false;
    }
    let mut i: usize = 0;
    while i < n - 1
        invariant
            n == text@.len(),
            i <= n - 1,
            forall|j: int|
                0 <= j < i && j < n - 1 ==> !(#[trigger] text@[j] == '$' && text@[j + 1] as u32
                    >= 128),
        decreases n - i,
    {
        if text.get_char(i) == '$' && text.get_char(i + 1) as u32 >= 128 {
            return true;
        }
        i = i + 1;
    }
    false
}

/// Helper: expand a directory given as a string, against the given
/// directories. A text with a `$` directly before a character outside
/// ASCII is refused as `InvalidString`.
pub fn expand_with(s: &str, dirs: &KnownDirs) -> (path: Result<PathBuf, CfgPathError>)
    ensures
        exists|separator: char| #[trigger] expands_to(s@, *dirs, separator, path),
{
    if has_dollar_before_non_ascii(s) {
        let path = Err(CfgPathError::InvalidString(s.to_owned()));
        assert(expands_to(s@, *dirs, '/', path));
        return path;
    }
    let (expanded, separator) = shell_expand(s, dirs);
    let path = match expanded {
        Ok(text) => Ok(path_from_string(text)),
        Err(e) => Err(e),
    };
    assert(expands_to(s@, *dirs, separator, path));
    path
}

/// Helper: expand a directory given as a string, against the directories
/// that the host reports now.
pub fn expand(s: &str) -> (path: Result<PathBuf, CfgPathError>)
    ensures
        exists|dirs: KnownDirs, separator: char| #[trigger] expands_to(s@, dirs, separator, path),
{
    let dirs = known_dirs();
    let path = expand_with(s, &dirs);
    proof {
        let separator = choose|separator: char| #[trigger] expands_to(s@, dirs, separator, path);
        assert(expands_to(s@, dirs, separator, path));
    }
    path
}

/// Inner implementation of CfgPath.
#[derive(Debug, Clone, PartialEq, Eq)]
enum PathInner {
    /// A path that should be used literally, with no expansion.
    Literal(PathBuf),
    /// A path that should be expanded from a string.
    Shell(String),
}

/// A path in a configuration file: tilde expansion is performed, along
/// with expansion of certain variables. Alternatively, a `CfgPath` can
/// contain a literal `PathBuf`, which will not be expanded.
#[derive(Debug, Clone, PartialEq, Eq)]
pub struct CfgPath(PathInner);

impl CfgPath {
    /// The text to expand, if this is no literal path.
    pub closed spec fn shell_text(&self) -> Option<Seq<char>> {
        match self.0 {
            PathInner::Shell(s) => Some(s@),
            PathInner::Literal(_) => None,
        }
    }

    /// The literal path, if this is one.
    pub closed spec fn literal(&self) -> Option<PathBuf> {
        match self.0 {
            PathInner::Shell(_) => None,
            PathInner::Literal(p) => Some(p),
        }
    }

    /// Create a new configuration path
    pub fn new(s: String) -> (path: Self)
        ensures
            path.shell_text() == Some(s@),
            path.literal() is None,
    {
        CfgPath(PathInner::Shell(s))
    }

    /// Construct a new `CfgPath` designating a literal not-to-be-expanded `PathBuf`
    pub fn new_literal(path: PathBuf) -> (cfg: Self)
        ensures
            cfg.literal() == Some(path),
            cfg.shell_text() is None,
    {
        CfgPath(PathInner::Literal(path))
    }

    /// Return the path on disk designated by this `CfgPath`, against the
    /// given directories.
    pub fn path_with(&self, dirs: &KnownDirs) -> (path: Result<PathBuf, CfgPathError>)
        ensures
            match self.literal() {
                Some(literal) => path == Ok::<PathBuf, CfgPathError>(literal),
                None => exists|separator: char| #[trigger]
                    expands_to(self.shell_text()->0, *dirs, separator, path),
            },
    {
        match &self.0 {
            PathInner::Shell(s) => {
                let path = expand_with(s.as_str(), dirs);
                proof {
                    let separator = choose|separator: char| #[trigger]
                        expands_to(s@, *dirs, separator, path);
                    assert(expands_to(self.shell_text()->0, *dirs, separator, path));
                }
                path
            },
            PathInner::Literal(literal) => Ok(literal.clone()),
        }
    }

    /// Return the path on disk designated by this `CfgPath`: a literal path
    /// as it is, a text expanded against the directories that the host
    /// reports now.
    pub fn path(&self) -> (path: Result<PathBuf, CfgPathError>)
        ensures
            match self.literal() {
                Some(literal) => path == Ok::<PathBuf, CfgPathError>(literal),
                None => exists|dirs: KnownDirs, separator: char| #[trigger]
                    expands_to(self.shell_text()->0, dirs, separator, path),
            },
    {
        match &self.0 {
            PathInner::Shell(s) => {
                let path = expand(s.as_str());
                proof {
                    let (dirs, separator) = choose|dirs: KnownDirs, separator: char| #[trigger]
                        expands_to(s@, dirs, separator, path);
                    assert(expands_to(self.shell_text()->0, dirs, separator, path));
                }
                path
            },
            PathInner::Literal(literal) => Ok(literal.clone()),
        }
    }

    /// If the `CfgPath` is a string that should be expanded, return the
    /// (unexpanded) string. Returns `None` if the `CfgPath` is a literal
    /// `PathBuf` not intended for expansion.
    pub fn as_unexpanded_str(&self) -> (text: Option<&str>)
        ensures
            match self.shell_text() {
                Some(s) => (text matches Some(t) && t@ == s),
                None => text is None,
            },
    {
        match &self.0 {
            PathInner::Shell(s) => Some(s.as_str()),
            PathInner::Literal(_) => None,
        }
    }

    /// If the `CfgPath` designates a literal not-to-be-expanded path, return
    /// a reference to it. Returns `None` if the `CfgPath` is a string which
    /// should be expanded, which is the usual case.
    pub fn as_literal_path(&self) -> (path: Option<&PathBuf>)
        ensures
            match self.literal() {
                Some(literal) => (path matches Some(p) && *p == literal),
                None => path is None,
            },
    {
        match &self.0 {
            PathInner::Shell(_) => None,
            PathInner::Literal(literal) => Some(literal),
        }
    }

    /// The path as it is shown: a text as it stands, a literal path quoted
    /// and marked `[exactly]`.
    pub fn to_string(&self) -> (text: String)
        ensures
            match self.literal() {
                Some(literal) => text@ == pathbuf_debug(literal) + " [exactly]"@,
                None => text@ == self.shell_text()->0,
            },
    {
        match &self.0 {
            PathInner::Literal(literal) => {
                let mut text = path_debug(literal);
                text.append(" [exactly]");
                text
            },
            PathInner::Shell(s) => s.clone(),
        }
    }
}

/// A configuration path is either a literal path or a text to expand, never
/// both and never neither.
pub proof fn lemma_literal_or_text(path: CfgPath)
    ensures
        path.literal() is Some <==> path.shell_text() is None,
{
}

impl CfgPathError {
    /// The broad kind of this error.
    pub fn kind(&self) -> (kind: CfgErrorKind)
        ensures
            kind == (match *self {
                CfgPathError::NoProjectDirs => CfgErrorKind::NoHomeDirectory,
                CfgPathError::NoBaseDirs => CfgErrorKind::NoHomeDirectory,
                _ => CfgErrorKind::InvalidConfig,
            }),
    {
        match self {
            CfgPathError::UnknownVar(_) => CfgErrorKind::InvalidConfig,
            CfgPathError::InvalidString(_) => CfgErrorKind::InvalidConfig,
            CfgPathError::NoProjectDirs => CfgErrorKind::NoHomeDirectory,
            CfgPathError::NoBaseDirs => CfgErrorKind::NoHomeDirectory,
            CfgPathError::BadUtf8(_) => CfgErrorKind::InvalidConfig,
        }
    }

    /// The message of this error.
    pub fn to_string(&self) -> (text: String)
        ensures
            text@ == (match *self {
                CfgPathError::UnknownVar(name) => "unrecognized variable "@ + name@,
                CfgPathError::NoProjectDirs => "can't construct project directories"@,
                CfgPathError::NoBaseDirs => "can't construct base directories"@,
                CfgPathError::BadUtf8(name) => "can't convert value of "@ + name@ + " to UTF-8"@,
                CfgPathError::InvalidString(s) => "invalid path string: "@ + debug_text(s@),
            }),
    {
        match self {
            CfgPathError::UnknownVar(name) => {
                let mut text = String::from_str("unrecognized variable ");
                text.append(name.as_str());
                text
            },
            CfgPathError::NoProjectDirs => String::from_str("can't construct project directories"),
            CfgPathError::NoBaseDirs => String::from_str("can't construct base directories"),
            CfgPathError::BadUtf8(name) => {
                let mut text = String::from_str("can't convert value of ");
                text.append(name.as_str());
                text.append(" to UTF-8");
                text
            },
            CfgPathError::InvalidString(s) => {
                let mut text = String::from_str("invalid path string: ");
                let quoted = str_debug(s.as_str());
                text.append(quoted.as_str());
                text
            },
        }
    }
}

} // verus!
