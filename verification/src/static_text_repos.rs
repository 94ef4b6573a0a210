use vstd::prelude::*;
use crate::text_like::TextLike;

verus! {

/// Turns a text into an owned name under which a sequence or a state can be
/// registered and found again: the name holds the characters of the text.
pub fn register_text_as_key(to_register: TextLike) -> (name: String)
    ensures
        name@ == to_register.spec_text(),
{
    match to_register {
        TextLike::Static(already_static) => already_static.to_owned(),
        TextLike::Ref(reference) => reference.to_owned(),
        TextLike::Owned(owned) => owned,
    }
}

} // verus!
