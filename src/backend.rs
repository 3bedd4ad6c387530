use vstd::prelude::*;

verus! {

/// The reporting backends that a selector string can name.
#[derive(Clone, Copy, Debug, PartialEq, Eq, Structural)]
pub enum Backend {
    Rollbar,
}

/// The backend that a selector names, if any: names match exactly and are
/// case-sensitive.
pub open spec fn backend_named(selector: Seq<char>) -> Option<Backend> {
    if selector == "rollbar"@ {
        Some(Backend::Rollbar)
    } else {
        None
    }
}

/// Character-by-character equality of two string slices.
pub fn str_equal(a: &str, b: &str) -> (r: bool)
    ensures
        r == (a@ == b@),
{
    let n = a.unicode_len();
    if n != b.unicode_len() {
        return false;
    }
    let mut i: usize = 0;
    while i < n
        invariant
            n == a@.len(),
            n == b@.len(),
            i <= n,
            forall|j: int| 0 <= j < i ==> a@[j] == b@[j],
        decreases n - i,
    {
        if a.get_char(i) != b.get_char(i) {
            return false;
        }
        i = i + 1;
    }
    assert(a@ =~= b@);
    true
}

impl Backend {
    /// Resolves a selector string to the backend it names.
    pub fn from_selector(selector: &str) -> (r: Option<Backend>)
        ensures
            r == backend_named(selector@),
    {
        if str_equal(selector, "rollbar") {
            Some(Backend::Rollbar)
        } else {
            None
        }
    }

    /// The selector string that names this backend.
    pub fn name(&self) -> (r: &'static str)
        ensures
            backend_named(r@) == Some(*self),
    {
        match self {
            Backend::Rollbar => "rollbar",
        }
    }
}

} // verus!
