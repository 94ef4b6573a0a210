use vstd::prelude::*;
use vstd::std_specs::convert::FromSpecImpl;
use crate::static_text_repos::register_text_as_key;

verus! {

/// A piece of text in one of the three forms a caller may hold it in.
#[derive(Debug, PartialEq, Eq, Hash)]
pub enum TextLike<'a> {
    Static(&'static str),
    Ref(&'a str),
    Owned(String),
}

impl<'a> TextLike<'a> {
    /// The characters of the text, whatever form holds them.
    pub open spec fn spec_text(&self) -> Seq<char> {
        match self {
            TextLike::Static(static_ref) => static_ref@,
            TextLike::Ref(reference) => reference@,
            TextLike::Owned(owned) => owned@,
        }
    }

    /// Turns the text into a name that can be kept for as long as needed.
    pub fn into_registered_name(self) -> (name: String)
        ensures
            name@ == self.spec_text(),
    {
        register_text_as_key(self)
    }

    /// The text as a string slice.
    pub fn as_str(&self) -> (text: &str)
        ensures
            text@ == self.spec_text(),
    {
        match self {
            TextLike::Static(static_ref) => static_ref,
            TextLike::Ref(reference) => reference,
            TextLike::Owned(owned) => owned.as_str(),
        }
    }
}

impl<'a> From<&'static str> for TextLike<'a> {
    fn from(value: &'static str) -> (text: Self) {
        Self::Static(value)
    }
}

impl<'a> FromSpecImpl<&'static str> for TextLike<'a> {
    open spec fn obeys_from_spec() -> bool {
        true
    }

    open spec fn from_spec(value: &'static str) -> Self {
        TextLike::Static(value)
    }
}

impl<'a> From<String> for TextLike<'a> {
    fn from(value: String) -> (text: Self) {
        Self::Owned(value)
    }
}

impl<'a> FromSpecImpl<String> for TextLike<'a> {
    open spec fn obeys_from_spec() -> bool {
        true
    }

    open spec fn from_spec(value: String) -> Self {
        TextLike::Owned(value)
    }
}

impl<'a> From<&'a String> for TextLike<'a> {
    fn from(value: &'a String) -> (text: Self)
        ensures
            text is Ref,
            text.spec_text() == value@,
    {
        Self::Ref(value.as_str())
    }
}

impl<'a> FromSpecImpl<&'a String> for TextLike<'a> {
    open spec fn obeys_from_spec() -> bool {
        false
    }

    open spec fn from_spec(value: &'a String) -> Self {
        arbitrary()
    }
}

} // verus!
