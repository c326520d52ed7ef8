use vstd::prelude::*;

verus! {

/// An immutable identity token: either a fixed, well-known name (the
/// built-in identities) or a name owned by one authenticated request.
/// Equality goes by the underlying text alone, never by which of the two
/// forms holds it.
#[derive(Debug)]
pub enum ActorName {
    /// A fixed, well-known name.
    Fixed(String),
    /// A name resolved from user credentials for one request.
    Owned(String),
}

impl ActorName {
    /// The underlying text of the name, whichever form holds it.
    pub open spec fn spec_text(&self) -> Seq<char> {
        match self {
            ActorName::Fixed(s) => s@,
            ActorName::Owned(s) => s@,
        }
    }

    /// Returns the underlying text regardless of storage form.
    pub fn as_str(&self) -> (r: &str)
        ensures
            r@ == self.spec_text(),
    {
        match self {
            ActorName::Fixed(s) => s.as_str(),
            ActorName::Owned(s) => s.as_str(),
        }
    }
}

impl Clone for ActorName {
    fn clone(&self) -> (r: Self)
        ensures
            r == *self,
    {
        match self {
            ActorName::Fixed(s) => ActorName::Fixed(s.clone()),
            ActorName::Owned(s) => ActorName::Owned(s.clone()),
        }
    }
}

impl PartialEq for ActorName {
    fn eq(&self, other: &Self) -> (r: bool) {
        let s = match self {
            ActorName::Fixed(s) => s,
            ActorName::Owned(s) => s,
        };
        let o = match other {
            ActorName::Fixed(s) => s,
            ActorName::Owned(s) => s,
        };
        *s == *o
    }
}

impl vstd::std_specs::cmp::PartialEqSpecImpl for ActorName {
    open spec fn obeys_eq_spec() -> bool {
        true
    }

    open spec fn eq_spec(&self, other: &Self) -> bool {
        self.spec_text() == other.spec_text()
    }
}

} // verus!
