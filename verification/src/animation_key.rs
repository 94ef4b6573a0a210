use vstd::prelude::*;
use vstd::std_specs::convert::FromSpecImpl;

verus! {

/// The name of a sequence or of a state, owned and cheap to compare.
#[derive(Debug, PartialEq, Eq, PartialOrd, Ord, Hash, Clone)]
pub struct AnimationKey(String);

impl View for AnimationKey {
    type V = Seq<char>;

    closed spec fn view(&self) -> Seq<char> {
        self.0@
    }
}

impl AnimationKey {
    /// The key that holds the characters of `key`.
    pub fn new(key: &str) -> (made: Self)
        ensures
            made@ == key@,
    {
        Self(key.to_owned())
    }

    /// The name as a string slice.
    pub fn as_str(&self) -> (name: &str)
        ensures
            name@ == self@,
    {
        self.0.as_str()
    }
}

impl From<String> for AnimationKey {
    fn from(value: String) -> (made: Self)
        ensures
            made@ == value@,
    {
        Self(value)
    }
}

impl FromSpecImpl<String> for AnimationKey {
    open spec fn obeys_from_spec() -> bool {
        false
    }

    open spec fn from_spec(value: String) -> Self {
        arbitrary()
    }
}

impl From<&str> for AnimationKey {
    fn from(value: &str) -> (made: Self)
        ensures
            made@ == value@,
    {
        Self(value.to_owned())
    }
}

impl FromSpecImpl<&str> for AnimationKey {
    open spec fn obeys_from_spec() -> bool {
        false
    }

    open spec fn from_spec(value: &str) -> Self {
        arbitrary()
    }
}

impl core::ops::Deref for AnimationKey {
    type Target = str;

    fn deref(&self) -> (name: &str)
        ensures
            name@ == self@,
    {
        self.0.as_str()
    }
}

impl AsRef<str> for AnimationKey {
    fn as_ref(&self) -> (name: &str)
        ensures
            name@ == self@,
    {
        self.0.as_str()
    }
}

impl std::borrow::Borrow<str> for AnimationKey {
    fn borrow(&self) -> (name: &str)
        ensures
            <str as View>::view(name) == self@,
    {
        self.0.as_str()
    }
}

} // verus!
