//! The address of a relay, as a client's transport knows it.

use vstd::prelude::*;

verus! {

/// The URL of a relay.
#[derive(Debug, Clone, PartialEq, Eq)]
pub struct EnaiaUrl(pub String);

impl View for EnaiaUrl {
    type V = Seq<char>;

    /// The URL's text.
    open spec fn view(&self) -> Seq<char> {
        self.0@
    }
}

impl From<String> for EnaiaUrl {
    /// The URL with the text.
    fn from(value: String) -> (url: EnaiaUrl) {
        EnaiaUrl(value)
    }
}

impl vstd::std_specs::convert::FromSpecImpl<String> for EnaiaUrl {
    open spec fn obeys_from_spec() -> bool {
        true
    }

    open spec fn from_spec(value: String) -> EnaiaUrl {
        EnaiaUrl(value)
    }
}

impl From<&str> for EnaiaUrl {
    /// The URL with a copy of the text.
    fn from(value: &str) -> (url: EnaiaUrl)
        ensures
            url@ == value@,
    {
        EnaiaUrl(value.to_owned())
    }
}

/// No value of the specification language names the copy of the text that
/// `from` makes, so what `from` gives is stated by its own `ensures` alone.
impl vstd::std_specs::convert::FromSpecImpl<&str> for EnaiaUrl {
    open spec fn obeys_from_spec() -> bool {
        false
    }

    open spec fn from_spec(value: &str) -> EnaiaUrl {
        arbitrary()
    }
}

impl EnaiaUrl {
    /// Whether both URLs name the same host: whether their text is the same.
    pub fn same_host(&self, other: &EnaiaUrl) -> (same: bool)
        ensures
            same == (self@ == other@),
    {
        self.0 == other.0
    }

    /// Whether both URLs are the same: whether their text is the same.
    pub fn same(&self, other: &EnaiaUrl) -> (same: bool)
        ensures
            same == (self@ == other@),
    {
        self.0 == other.0
    }

    /// Whether the URL stands for every host: no URL does.
    pub fn is_broadcast(&self) -> (broadcast: bool)
        ensures
            !broadcast,
    {
        false
    }
}

} // verus!
