//! Parameter paths and their Full / Partial / WildCard classification.
use vstd::prelude::*;
use crate::error::CwmpError;

verus! {

/// The category of a parameter path.
#[derive(Debug, Clone, Copy, PartialEq, Eq, Structural)]
pub enum PathKind {
    Full,
    Partial,
    WildCard,
}

pub open spec fn ends_with(s: Seq<char>, c: char) -> bool {
    s.len() > 0 && s.last() == c
}

pub open spec fn ends_with_star_dot(s: Seq<char>) -> bool {
    s.len() >= 2 && s[s.len() - 2] == '*' && s[s.len() - 1] == '.'
}

/// A wildcard may not be the last segment of a path.
pub open spec fn path_is_valid(s: Seq<char>) -> bool {
    !ends_with(s, '*') && !ends_with_star_dot(s)
}

/// The category of a valid path: a trailing `.` makes it partial, else any `*` a wildcard.
pub open spec fn path_kind(s: Seq<char>) -> PathKind {
    if ends_with(s, '.') {
        PathKind::Partial
    } else if s.contains('*') {
        PathKind::WildCard
    } else {
        PathKind::Full
    }
}

/// Classifies a parameter path, rejecting one whose last segment is a wildcard.
pub fn classify(path: &str) -> (r: Result<PathKind, CwmpError>)
    ensures
        path_is_valid(path@) ==> r == Ok::<PathKind, CwmpError>(path_kind(path@)),
        !path_is_valid(path@) ==> r == Err::<PathKind, CwmpError>(CwmpError::InvalidPath),
{
    let n = path.unicode_len();
    let last_star = n >= 1 && path.get_char(n - 1) == '*';
    let star_dot = n >= 2 && path.get_char(n - 2) == '*' && path.get_char(n - 1) == '.';
    if last_star || star_dot {
        return Err(CwmpError::InvalidPath);
    }
    if n >= 1 && path.get_char(n - 1) == '.' {
        return Ok(PathKind::Partial);
    }
    let mut i: usize = 0;
    while i < n
        invariant
            n == path@.len(),
            i <= n,
            forall|j: int| 0 <= j < i ==> path@[j] != '*',
            path_is_valid(path@),
            !ends_with(path@, '.'),
        decreases n - i,
    {
        if path.get_char(i) == '*' {
            assert(path@[i as int] == '*');
            return Ok(PathKind::WildCard);
        }
        i = i + 1;
    }
    Ok(PathKind::Full)
}

/// A parameter path together with its category.
#[derive(Debug)]
pub enum ParameterName {
    Partial(String),
    Full(String),
    WildCard(String),
}

impl ParameterName {
    /// The path text.
    pub open spec fn path(&self) -> Seq<char> {
        match self {
            ParameterName::Partial(s) => s@,
            ParameterName::Full(s) => s@,
            ParameterName::WildCard(s) => s@,
        }
    }

    /// The category this value carries.
    pub open spec fn spec_kind(&self) -> PathKind {
        match self {
            ParameterName::Partial(_) => PathKind::Partial,
            ParameterName::Full(_) => PathKind::Full,
            ParameterName::WildCard(_) => PathKind::WildCard,
        }
    }

    /// Classifies `input` and keeps it with its category.
    pub fn try_from(input: String) -> (r: Result<ParameterName, CwmpError>)
        ensures
            path_is_valid(input@) <==> r is Ok,
            r matches Ok(p) ==> p.path() == input@ && p.spec_kind() == path_kind(input@),
            r matches Err(e) ==> e == CwmpError::InvalidPath,
    {
        match classify(input.as_str()) {
            Ok(PathKind::Partial) => Ok(ParameterName::Partial(input)),
            Ok(PathKind::WildCard) => Ok(ParameterName::WildCard(input)),
            Ok(PathKind::Full) => Ok(ParameterName::Full(input)),
            Err(e) => Err(e),
        }
    }

    /// The category.
    pub fn kind(&self) -> (r: PathKind)
        ensures
            r == self.spec_kind(),
    {
        match self {
            ParameterName::Partial(_) => PathKind::Partial,
            ParameterName::Full(_) => PathKind::Full,
            ParameterName::WildCard(_) => PathKind::WildCard,
        }
    }

    /// The path text, giving up the category.
    pub fn inner(self) -> (r: String)
        ensures
            r@ == self.path(),
    {
        match self {
            ParameterName::Partial(inner) => inner,
            ParameterName::Full(inner) => inner,
            ParameterName::WildCard(inner) => inner,
        }
    }
}

/// Text that a path can be made from.
pub trait PathText: Sized {
    spec fn text_view(&self) -> Seq<char>;

    fn into_text(self) -> (r: String)
        ensures
            r@ == self.text_view(),
    ;
}

impl PathText for String {
    open spec fn text_view(&self) -> Seq<char> {
        self@
    }

    fn into_text(self) -> (r: String) {
        self
    }
}

impl<'a> PathText for &'a str {
    open spec fn text_view(&self) -> Seq<char> {
        (*self)@
    }

    fn into_text(self) -> (r: String) {
        String::from_str(self)
    }
}

} // verus!
