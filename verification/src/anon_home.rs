//! Replace the home-directory in a filename with `${HOME}` or `%UserProfile%`
//!
//! In some privacy-sensitive applications, we want to lower the amount of
//! personally identifying information in our logs. In such environments, it's
//! good to avoid logging the actual value of the home directory, since those
//! frequently identify the user.

use std::path::PathBuf;
use vstd::prelude::*;
use vstd::string::StringExecFns;

verus! {

/// A path as it is displayed, with a replacement character for what is not
/// valid Unicode.
pub uninterp spec fn pathbuf_shown(path: PathBuf) -> Seq<char>;

/// What is left of `path` below `base`, if `base` is a prefix of `path` by
/// whole components.
pub uninterp spec fn stripped(path: PathBuf, base: PathBuf) -> Option<PathBuf>;

/// Whether two paths are equal as the host compares paths: component by
/// component.
pub uninterp spec fn same_path(a: PathBuf, b: PathBuf) -> bool;

/// `PathBuf::eq`. Trusted: the answer is a function of the two paths.
pub assume_specification[ <PathBuf as PartialEq>::eq ](a: &PathBuf, b: &PathBuf) -> (same: bool)
    ensures
        same == same_path(*a, *b),
;

/// Reads `std::path::MAIN_SEPARATOR`, which depends on the host.
#[verifier::external_body]
fn main_separator() -> (separator: char) {
    std::path::MAIN_SEPARATOR
}

/// Calls `dirs::home_dir`. The answer depends on the host and the user, so
/// nothing is claimed of it.
#[verifier::external_body]
fn home_dir() -> (home: Option<PathBuf>) {
    dirs::home_dir()
}

/// Calls `Path::display` and writes it out.
#[verifier::external_body]
fn path_shown(path: &PathBuf) -> (text: String)
    ensures
        text@ == pathbuf_shown(*path),
{
    path.display().to_string()
}

/// Calls `Path::strip_prefix` and owns what is left.
#[verifier::external_body]
fn strip_prefix(path: &PathBuf, base: &PathBuf) -> (rest: Option<PathBuf>)
    ensures
        rest == stripped(*path, *base),
{
    path.strip_prefix(base).ok().map(|suffix| suffix.to_path_buf())
}

/// Whether `list` holds a path that equals `path`.
pub open spec fn listed(list: Seq<PathBuf>, path: PathBuf) -> bool {
    exists|j: int| 0 <= j < list.len() && same_path(#[trigger] list[j], path)
}

/// The paths of `candidates` without those that equal an earlier one, in
/// the order in which they first occur.
pub open spec fn unique(candidates: Seq<PathBuf>) -> Seq<PathBuf>
    decreases candidates.len(),
{
    if candidates.len() == 0 {
        Seq::empty()
    } else {
        let before = unique(candidates.drop_last());
        if listed(before, candidates.last()) {
            before
        } else {
            before.push(candidates.last())
        }
    }
}

/// No path of `unique(candidates)` equals one that stands before it.
pub proof fn lemma_unique_has_no_duplicate(candidates: Seq<PathBuf>)
    ensures
        forall|i: int, j: int|
            0 <= i < j < unique(candidates).len() ==> !same_path(
                #[trigger] unique(candidates)[i],
                #[trigger] unique(candidates)[j],
            ),
    decreases candidates.len(),
{
    if candidates.len() > 0 {
        lemma_unique_has_no_duplicate(candidates.drop_last());
        let before = unique(candidates.drop_last());
        let all = unique(candidates);
        if !listed(before, candidates.last()) {
            assert forall|i: int, j: int| 0 <= i < j < all.len() implies !same_path(
                #[trigger] all[i],
                #[trigger] all[j],
            ) by {
                if j == all.len() - 1 {
                    assert(all[i] == before[i]);
                } else {
                    assert(all[i] == before[i]);
                    assert(all[j] == before[j]);
                }
            }
        }
    }
}

/// Whether `list` holds a path that equals `path`.
fn holds(list: &Vec<PathBuf>, path: &PathBuf) -> (found: bool)
    ensures
        found == listed(list@, *path),
{
    let mut i: usize = 0;
    while i < list.len()
        invariant
            i <= list.len(),
            forall|j: int| 0 <= j < i ==> !same_path(#[trigger] list@[j], *path),
        decreases list.len() - i,
    {
        if list[i] == *path {
            return true;
        }
        i = i + 1;
    }
    false
}

/// Drops from a list of paths every path that occurred before.
pub fn unique_paths(candidates: Vec<PathBuf>) -> (paths: Vec<PathBuf>)
    ensures
        paths@ == unique(candidates@),
{
    let mut out: Vec<PathBuf> = Vec::new();
    let mut i: usize = 0;
    while i < candidates.len()
        invariant
            i <= candidates.len(),
            out@ == unique(candidates@.take(i as int)),
        decreases candidates.len() - i,
    {
        proof {
            assert(candidates@.take(i + 1).drop_last() =~= candidates@.take(i as int));
        }
        if !holds(&out, &candidates[i]) {
            out.push(candidates[i].clone());
        }
        i = i + 1;
    }
    proof {
        assert(candidates@.take(i as int) =~= candidates@);
    }
    out
}

/// The forms of the home directory that are there, in the order official,
/// canonical, resolved.
pub open spec fn home_forms(
    basic_home: PathBuf,
    canonical: Option<PathBuf>,
    resolved: Option<PathBuf>,
) -> Seq<PathBuf> {
    seq![basic_home] + (match canonical {
        Some(c) => seq![c],
        None => seq![],
    }) + (match resolved {
        Some(r) => seq![r],
        None => seq![],
    })
}

/// Return a list of home directories in official and canonical forms, each
/// once: the home directory, its canonical form and its resolved form, as far
/// as the caller could find them. The list is empty where there is no home
/// directory.
pub fn default_homedirs(
    basic_home: Option<PathBuf>,
    canonical: Option<PathBuf>,
    resolved: Option<PathBuf>,
) -> (homedirs: Vec<PathBuf>)
    ensures
        homedirs@ == (match basic_home {
            Some(home) => unique(home_forms(home, canonical, resolved)),
            None => Seq::empty(),
        }),
{
    match basic_home {
        Some(home) => {
            let mut forms: Vec<PathBuf> = Vec::new();
            forms.push(home);
            match canonical {
                Some(c) => {
                    forms.push(c);
                },
                None => {},
            }
            match resolved {
                Some(r) => {
                    forms.push(r);
                },
                None => {},
            }
            assert(forms@ =~= home_forms(home, canonical, resolved));
            unique_paths(forms)
        },
        None => Vec::new(),
    }
}

/// The string that we use to represent our home directory in a compacted
/// path, on a host with the given path separator.
pub open spec fn home_substitution_text(separator: char) -> Seq<char> {
    if separator == '\\' {
        "%UserProfile%"@
    } else {
        "${HOME}"@
    }
}

/// The string that we use to represent our home directory in a compacted
/// path, on a host with the given path separator.
pub fn home_substitution(separator: char) -> (text: &'static str)
    ensures
        text@ == home_substitution_text(separator),
{
    if separator == '\\' {
        "%UserProfile%"
    } else {
        "${HOME}"
    }
}

/// The path with its home directory replaced: by the first of `homedirs`
/// that is a prefix of it, if there is one.
pub open spec fn anonymized(path: PathBuf, homedirs: Seq<PathBuf>, separator: char) -> Seq<char>
    decreases homedirs.len(),
{
    if homedirs.len() == 0 {
        pathbuf_shown(path)
    } else {
        match stripped(path, homedirs[0]) {
            Some(suffix) => home_substitution_text(separator) + seq![separator] + pathbuf_shown(
                suffix,
            ),
            None => anonymized(path, homedirs.drop_first(), separator),
        }
    }
}

/// A wrapper for a path which, when shown, replaces the home directory with
/// a symbolic reference.
#[derive(Debug, Clone)]
pub struct AnonHomePath<'a>(&'a PathBuf);

impl<'a> AnonHomePath<'a> {
    /// The path that is wrapped.
    pub closed spec fn path(&self) -> PathBuf {
        *self.0
    }

    /// The path as text, with the first of the given home directories that
    /// is a prefix of it replaced by the symbolic reference.
    pub fn to_string_with(&self, homedirs: &Vec<PathBuf>, separator: char) -> (text: String)
        ensures
            text@ == anonymized(self.path(), homedirs@, separator),
    {
        let mut i: usize = 0;
        assert(homedirs@.skip(0) =~= homedirs@);
        while i < homedirs.len()
            invariant
                i <= homedirs.len(),
                anonymized(self.path(), homedirs@, separator) == anonymized(
                    self.path(),
                    homedirs@.skip(i as int),
                    separator,
                ),
            decreases homedirs.len() - i,
        {
            proof {
                assert(homedirs@.skip(i as int).drop_first() =~= homedirs@.skip(i + 1));
            }
            match strip_prefix(self.0, &homedirs[i]) {
                Some(suffix) => {
                    let mut text = String::from_str(home_substitution(separator));
                    text.push(separator);
                    let shown = path_shown(&suffix);
                    text.append(shown.as_str());
                    return text;
                },
                None => {},
            }
            i = i + 1;
        }
        // Didn't match any homedir.
        path_shown(self.0)
    }

    /// The path as text, with the home directory that the host reports
    /// replaced by the symbolic reference.
    pub fn to_string(&self) -> (text: String)
        ensures
            exists|homedirs: Seq<PathBuf>, separator: char|
                text@ == #[trigger] anonymized(self.path(), homedirs, separator),
    {
        let homedirs = default_homedirs(home_dir(), None, None);
        self.to_string_with(&homedirs, main_separator())
    }
}

/// An extension trait for paths.
pub trait PathExt {
    /// If this is a path within our home directory, try to replace the home
    /// directory component with a symbolic reference to our home directory.
    ///
    /// This function can be useful for outputting paths while reducing the risk
    /// of exposing usernames in the log.
    fn anonymize_home(&self) -> AnonHomePath<'_>;
}

impl PathExt for PathBuf {
    fn anonymize_home(&self) -> (wrapped: AnonHomePath<'_>)
        ensures
            wrapped.path() == *self,
    {
        AnonHomePath(self)
    }
}

} // verus!
