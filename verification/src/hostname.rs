//! Discovered hostnames and the rule that decides which of them are probed.

use vstd::prelude::*;
use vstd::string::StringExecFns;

verus! {

/// Whether `name` holds a wildcard character and so names a pattern rather
/// than a concrete host.
pub open spec fn is_wildcard(name: Seq<char>) -> bool {
    name.contains('*') || name.contains('?')
}

/// Decides whether `name` holds `*` or `?`.
pub fn has_wildcard(name: &str) -> (found: bool)
    ensures
        found == is_wildcard(name@),
{
    let mut found = false;
    for c in it: name.chars()
        invariant
            it.seq() == name@,
            found == exists|i: int| 0 <= i < it.index() && (name@[i] == '*' || name@[i] == '?'),
    {
        if c == '*' || c == '?' {
            found = true;
        }
    }
    found
}

/// Why a hostname is refused.
pub const INVALID_REASON: &'static str = "wildcard/invalid character";

/// The verdict on one raw hostname.
#[derive(Clone, Debug, PartialEq, Eq)]
pub enum Validity {
    /// The name is handed on to resolution as it is.
    Valid,
    /// The name is not probed; the field says why.
    Invalid(String),
}

/// A hostname as the upstream provider returned it.
#[derive(Clone, Debug, PartialEq, Eq, Hash)]
pub struct Subdomain {
    pub subdomain: String,
}

impl View for Subdomain {
    type V = Seq<char>;

    open spec fn view(&self) -> Seq<char> {
        self.subdomain@
    }
}

impl Subdomain {
    /// Wraps a raw hostname without changing it.
    pub fn new(name: String) -> (host: Subdomain)
        ensures
            host@ == name@,
    {
        Subdomain { subdomain: name }
    }

    /// The hostname as text.
    pub fn as_str(&self) -> (name: &str)
        ensures
            name@ == self@,
    {
        self.subdomain.as_str()
    }

    /// A second value with the same name.
    pub fn duplicate(&self) -> (copy: Subdomain)
        ensures
            copy@ == self@,
    {
        Subdomain { subdomain: self.subdomain.clone() }
    }

    /// Whether both values name the same host, character for character.
    pub fn same_name(&self, other: &Subdomain) -> (same: bool)
        ensures
            same == (self@ == other@),
    {
        self.subdomain == other.subdomain
    }

    /// Refuses a name that holds `*` or `?` and accepts every other, the
    /// empty name and malformed labels included: those fail at resolution.
    pub fn validate(&self) -> (verdict: Validity)
        ensures
            verdict is Invalid <==> is_wildcard(self@),
            verdict matches Validity::Invalid(reason) ==> reason@ == INVALID_REASON@,
    {
        if has_wildcard(self.subdomain.as_str()) {
            Validity::Invalid(String::from_str(INVALID_REASON))
        } else {
            Validity::Valid
        }
    }
}

} // verus!
