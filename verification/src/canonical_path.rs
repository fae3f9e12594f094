//! The canonical path encoder: turns a relative path, given by its
//! components, into the one string that stands for it as a key.

use std::path::{Component, Path};
use vstd::prelude::*;
use vstd::string::{StrSliceExecFns, StringExecFns};

verus! {

/// One component of a path, as far as the encoder looks at it.
#[derive(Debug, Clone, PartialEq, Eq)]
pub enum PathComponent {
    /// A drive or volume prefix.
    Prefix,
    /// The marker of the root, which makes a path absolute.
    RootDir,
    /// `.`
    CurDir,
    /// `..`
    ParentDir,
    /// A name that is valid Unicode.
    Normal(String),
    /// A name that is not valid Unicode.
    NonUnicode,
}

/// Why a path has no canonical form.
#[derive(Debug, Clone, Copy, PartialEq, Eq, Structural)]
pub enum PathError {
    /// A component is `.`, `..`, a root or prefix marker, or a name that
    /// holds `/` or `\`.
    InvalidComponent,
    /// A component is not valid Unicode.
    NonUnicodeComponent,
}

/// Whether a name holds one of the two separator characters.
pub open spec fn has_separator(name: Seq<char>) -> bool {
    name.contains('/') || name.contains('\\')
}

/// What is wrong with one component, if anything.
pub open spec fn component_error(component: PathComponent) -> Option<PathError> {
    match component {
        PathComponent::Normal(name) => if has_separator(name@) {
            Some(PathError::InvalidComponent)
        } else {
            None
        },
        PathComponent::NonUnicode => Some(PathError::NonUnicodeComponent),
        _ => Some(PathError::InvalidComponent),
    }
}

/// What is wrong with the first component that has something wrong.
pub open spec fn first_error(components: Seq<PathComponent>) -> Option<PathError>
    decreases components.len(),
{
    if components.len() == 0 {
        None
    } else {
        match first_error(components.drop_last()) {
            Some(e) => Some(e),
            None => component_error(components.last()),
        }
    }
}

/// The name that a component contributes.
pub open spec fn component_name(component: PathComponent) -> Seq<char> {
    match component {
        PathComponent::Normal(name) => name@,
        _ => Seq::empty(),
    }
}

/// The names joined by single forward slashes.
pub open spec fn joined(components: Seq<PathComponent>) -> Seq<char>
    decreases components.len(),
{
    if components.len() == 0 {
        Seq::empty()
    } else if components.len() == 1 {
        component_name(components[0])
    } else {
        joined(components.drop_last()) + seq!['/'] + component_name(components.last())
    }
}

/// The canonical form of a path: its names joined by `/`, unless a component
/// is in error.
pub open spec fn canonical_text(components: Seq<PathComponent>) -> Result<Seq<char>, PathError> {
    match first_error(components) {
        Some(e) => Err(e),
        None => Ok(joined(components)),
    }
}

/// Whether the name holds `/` or `\`.
pub fn name_has_separator(name: &str) -> (found: bool)
    ensures
        found == has_separator(name@),
{
    let n = name.unicode_len();
    let mut i: usize = 0;
    while i < n
        invariant
            n == name@.len(),
            i <= n,
            forall|j: int| 0 <= j < i ==> name@[j] != '/' && name@[j] != '\\',
        decreases n - i,
    {
        let c = name.get_char(i);
        if c == '/' || c == '\\' {
            return true;
        }
        i = i + 1;
    }
    false
}

/// Converts a canonicalized relative path, given by its components, to a
/// string: the names joined by `/`, whatever the host's separator is.
/// Fails on the first component that is not a plain name free of separators,
/// with `NonUnicodeComponent` if that one is not valid Unicode and with
/// `InvalidComponent` otherwise. Nothing is looked up or resolved.
pub fn canonicalize_components(components: &Vec<PathComponent>) -> (text: Result<String, PathError>)
    ensures
        match canonical_text(components@) {
            Ok(expected) => (text matches Ok(s) && s@ == expected),
            Err(e) => text == Err::<String, PathError>(e),
        },
{
    let mut out = String::new();
    let mut i: usize = 0;
    while i < components.len()
        invariant
            i <= components.len(),
            first_error(components@.take(i as int)) is None,
            out@ == joined(components@.take(i as int)),
        decreases components.len() - i,
    {
        let ghost before = components@.take(i as int);
        let ghost now = components@.take(i + 1);
        proof {
            assert(now.drop_last() =~= before);
            assert(now.last() == components@[i as int]);
            lemma_error_stays(components@, i + 1);
        }
        match &components[i] {
            PathComponent::Normal(name) => {
                if name_has_separator(name.as_str()) {
                    return Err(PathError::InvalidComponent);
                }
                if i > 0 {
                    proof {
                        reveal_strlit("/");
                        assert("/"@ =~= seq!['/']);
                    }
                    out.append("/");
                }
                out.append(name.as_str());
                proof {
                    if i == 0 {
                        assert(out@ =~= name@);
                    }
                }
            },
            PathComponent::NonUnicode => {
                return Err(PathError::NonUnicodeComponent);
            },
            _ => {
                return Err(PathError::InvalidComponent);
            },
        }
        i = i + 1;
    }
    proof {
        assert(components@.take(i as int) =~= components@);
    }
    Ok(out)
}

/// An error among the first `n` components is the error of the whole path.
proof fn lemma_error_stays(components: Seq<PathComponent>, n: int)
    requires
        0 <= n <= components.len(),
    ensures
        first_error(components.take(n)) matches Some(e) ==> first_error(components) == Some(e),
    decreases components.len() - n,
{
    if n < components.len() {
        assert(components.take(n + 1).drop_last() =~= components.take(n));
        lemma_error_stays(components, n + 1);
    } else {
        assert(components.take(n) =~= components);
    }
}

/// In a path without an error every component is a name without a
/// separator.
pub proof fn lemma_no_error_means_plain_names(components: Seq<PathComponent>, i: int)
    requires
        first_error(components) is None,
        0 <= i < components.len(),
    ensures
        component_error(components[i]) is None,
        !component_name(components[i]).contains('/'),
    decreases components.len(),
{
    if i < components.len() - 1 {
        lemma_no_error_means_plain_names(components.drop_last(), i);
    }
}

/// A text splits in one way only into a head, a slash and a tail without
/// slashes.
proof fn lemma_last_slash_unique(x: Seq<char>, n: Seq<char>, y: Seq<char>, m: Seq<char>)
    requires
        x + seq!['/'] + n == y + seq!['/'] + m,
        !n.contains('/'),
        !m.contains('/'),
    ensures
        x == y,
        n == m,
{
    let t = x + seq!['/'] + n;
    let u = y + seq!['/'] + m;
    assert(t.len() == x.len() + 1 + n.len());
    assert(u.len() == y.len() + 1 + m.len());
    if x.len() < y.len() {
        assert(u[y.len() as int] == '/');
        assert(t[y.len() as int] == n[y.len() - x.len() - 1]);
        assert(n.contains('/'));
    } else if y.len() < x.len() {
        assert(t[x.len() as int] == '/');
        assert(u[x.len() as int] == m[x.len() - y.len() - 1]);
        assert(m.contains('/'));
    }
    assert(x =~= y) by {
        assert forall|i: int| 0 <= i < x.len() implies x[i] == y[i] by {
            assert(t[i] == x[i]);
            assert(u[i] == y[i]);
        }
    }
    assert(n =~= m) by {
        assert forall|i: int| 0 <= i < n.len() implies n[i] == m[i] by {
            assert(t[x.len() + 1 + i] == n[i]);
            assert(u[y.len() + 1 + i] == m[i]);
        }
    }
}

/// The canonical text of a single plain name holds no slash; that of a
/// longer path does.
proof fn lemma_slash_tells_length(components: Seq<PathComponent>)
    requires
        first_error(components) is None,
        components.len() > 0,
    ensures
        joined(components).contains('/') <==> components.len() > 1,
{
    if components.len() == 1 {
        lemma_no_error_means_plain_names(components, 0);
    } else {
        let head = joined(components.drop_last());
        let text = head + seq!['/'] + component_name(components.last());
        assert(text[head.len() as int] == '/');
    }
}

/// Whether one of the two paths has no component and the other is a single
/// empty name. Both have the empty canonical text.
pub open spec fn empty_and_blank(a: Seq<PathComponent>, b: Seq<PathComponent>) -> bool {
    a.len() == 0 && b.len() == 1 && component_name(b[0]).len() == 0
}

/// The canonical form is injective: two paths without an error that have
/// the same canonical text have the same names, one by one. The one
/// exception is the path without components beside a single empty name.
pub proof fn lemma_canonical_text_injective(a: Seq<PathComponent>, b: Seq<PathComponent>)
    requires
        canonical_text(a) is Ok,
        canonical_text(a) == canonical_text(b),
        !empty_and_blank(a, b),
        !empty_and_blank(b, a),
    ensures
        a.len() == b.len(),
        forall|i: int| 0 <= i < a.len() ==> component_name(a[i]) == component_name(b[i]),
    decreases a.len(),
{
    if a.len() == 0 || b.len() == 0 {
        if a.len() > 0 {
            lemma_slash_tells_length(a);
            assert(joined(a) =~= Seq::<char>::empty());
            assert(!joined(a).contains('/'));
        }
        if b.len() > 0 {
            lemma_slash_tells_length(b);
            assert(joined(b) =~= Seq::<char>::empty());
            assert(!joined(b).contains('/'));
        }
    } else {
        lemma_slash_tells_length(a);
        lemma_slash_tells_length(b);
        if a.len() > 1 {
            lemma_no_error_means_plain_names(a, a.len() - 1);
            lemma_no_error_means_plain_names(b, b.len() - 1);
            lemma_last_slash_unique(
                joined(a.drop_last()),
                component_name(a.last()),
                joined(b.drop_last()),
                component_name(b.last()),
            );
            lemma_canonical_text_injective(a.drop_last(), b.drop_last());
            assert forall|i: int| 0 <= i < a.len() implies component_name(a[i]) == component_name(
                b[i],
            ) by {
                if i < a.len() - 1 {
                    assert(a.drop_last()[i] == a[i]);
                    assert(b.drop_last()[i] == b[i]);
                }
            }
        }
    }
}

/// Calls `Path::components` and, on each name, `OsStr::to_str`. How a text
/// splits into components depends on the host, so nothing is claimed of the
/// list.
#[verifier::external_body]
fn path_components(path: &str) -> (components: Vec<PathComponent>) {
    let mut out = Vec::new();
    for c in Path::new(path).components() {
        out.push(match c {
            Component::Prefix(_) => PathComponent::Prefix,
            Component::RootDir => PathComponent::RootDir,
            Component::CurDir => PathComponent::CurDir,
            Component::ParentDir => PathComponent::ParentDir,
            Component::Normal(x) => x.to_str().map_or(PathComponent::NonUnicode, |s| PathComponent::Normal(s.to_owned())),
        });
    }
    out
}

/// Whether the character is one of the two separators.
pub open spec fn is_separator(c: char) -> bool {
    c == '/' || c == '\\'
}

/// Whether the text holds a segment that is a single `.`: a dot with a
/// separator or an end of the text on either side.
pub open spec fn has_dot_segment(text: Seq<char>) -> bool {
    exists|i: int|
        0 <= i < text.len() && #[trigger] text[i] == '.' && (i == 0 || is_separator(text[i - 1]))
            && (i == text.len() - 1 || is_separator(text[i + 1]))
}

/// Whether the text holds a segment that is a single `.`.
pub fn text_has_dot_segment(text: &str) -> (found: bool)
    ensures
        found == has_dot_segment(text@),
{
    let n = text.unicode_len();
    let mut i: usize = 0;
    while i < n
        invariant
            n == text@.len(),
            i <= n,
            forall|j: int|
                0 <= j < i ==> !(#[trigger] text@[j] == '.' && (j == 0 || is_separator(
                    text@[j - 1],
                )) && (j == n - 1 || is_separator(text@[j + 1]))),
        decreases n - i,
    {
        if text.get_char(i) == '.' {
            let open = if i == 0 {
                true
            } else {
                let before = text.get_char(i - 1);
                before == '/' || before == '\\'
            };
            let closed = if i == n - 1 {
                true
            } else {
                let after = text.get_char(i + 1);
                after == '/' || after == '\\'
            };
            if open && closed {
                return true;
            }
        }
        i = i + 1;
    }
    false
}

/// Converts a canonicalized relative path to a string: splits the text as
/// the host splits paths, then joins the names by `/`. Fails if the path is
/// not canonical, that is, holds `.` or `..` or a root, or if a name holds a
/// separator. A `.` segment is refused wherever it stands, also where the
/// host would pass over it.
pub fn canonicalize_path(path: &str) -> (text: Result<String, PathError>)
    ensures
        has_dot_segment(path@) ==> text == Err::<String, PathError>(PathError::InvalidComponent),
        exists|components: Seq<PathComponent>|
            match #[trigger] canonical_text(components) {
                Ok(expected) => (text matches Ok(s) && s@ == expected),
                Err(e) => text == Err::<String, PathError>(e),
            },
{
    if text_has_dot_segment(path) {
        proof {
            let witness = seq![PathComponent::CurDir];
            assert(witness.drop_last() =~= Seq::<PathComponent>::empty());
            reveal_with_fuel(first_error, 2);
            assert(canonical_text(witness) == Err::<Seq<char>, PathError>(
                PathError::InvalidComponent,
            ));
        }
        return Err(PathError::InvalidComponent);
    }
    let components = path_components(path);
    canonicalize_components(&components)
}

} // verus!
