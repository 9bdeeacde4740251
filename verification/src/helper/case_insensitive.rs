use crate::text::chars_of;
use vstd::prelude::*;

verus! {

/// The small letter of a capital letter, and any other character as it is
pub open spec fn lowercase(c: char) -> char {
    if 'A' as u32 <= c as u32 <= 'Z' as u32 {
        ((c as u32) + 32) as char
    } else {
        c
    }
}

/// The capital letter of a small letter, and any other character as it is
pub open spec fn uppercase(c: char) -> char {
    if 'a' as u32 <= c as u32 <= 'z' as u32 {
        ((c as u32) - 32) as char
    } else {
        c
    }
}

/// Two characters are the same letter, or the same character
pub open spec fn same_char(a: char, b: char) -> bool {
    lowercase(a) == b || uppercase(a) == b
}

/// Two texts are the same but for the case of their letters
pub open spec fn same_str(a: Seq<char>, b: Seq<char>) -> bool {
    &&& a.len() == b.len()
    &&& forall|i: int| 0 <= i < a.len() ==> same_char(#[trigger] a[i], b[i])
}

/// Tells whether two characters are the same letter, or the same character
fn chars_match(a: char, b: char) -> (same: bool)
    ensures
        same == same_char(a, b),
{
    let x = a as u32;
    let y = b as u32;
    if 65 <= x && x <= 90 {
        y == x + 32 || y == x
    } else if 97 <= x && x <= 122 {
        y == x || y == x - 32
    } else {
        x == y
    }
}

/// Tells whether two texts are the same but for the case of their letters
fn strs_match(a: &str, b: &str) -> (same: bool)
    ensures
        same == same_str(a@, b@),
{
    let left = chars_of(a);
    let right = chars_of(b);
    if left.len() != right.len() {
        return false;
    }
    let mut index: usize = 0;
    while index < left.len()
        invariant
            index <= left.len(),
            left.len() == right.len(),
            left@ == a@,
            right@ == b@,
            forall|i: int| 0 <= i < index ==> same_char(#[trigger] left@[i], right@[i]),
        decreases left.len() - index,
    {
        if !chars_match(left[index], right[index]) {
            return false;
        }
        index += 1;
    }
    true
}

/// A case-insensitive char
#[derive(Clone, Copy, Debug)]
pub struct Char(pub char);

impl From<char> for Char {
    fn from(value: char) -> (character: Self)
        ensures
            character == Char(value),
    {
        Self(value)
    }
}

impl vstd::std_specs::convert::FromSpecImpl<char> for Char {
    open spec fn obeys_from_spec() -> bool {
        true
    }

    open spec fn from_spec(value: char) -> Self {
        Char(value)
    }
}

impl PartialEq for Char {
    fn eq(&self, other: &Self) -> (same: bool) {
        chars_match(self.0, other.0)
    }
}

impl vstd::std_specs::cmp::PartialEqSpecImpl for Char {
    open spec fn obeys_eq_spec() -> bool {
        true
    }

    open spec fn eq_spec(&self, other: &Self) -> bool {
        same_char(self.0, other.0)
    }
}

impl Eq for Char {

}

impl PartialEq<char> for Char {
    fn eq(&self, other: &char) -> (same: bool) {
        chars_match(self.0, *other)
    }
}

impl vstd::std_specs::cmp::PartialEqSpecImpl<char> for Char {
    open spec fn obeys_eq_spec() -> bool {
        true
    }

    open spec fn eq_spec(&self, other: &char) -> bool {
        same_char(self.0, *other)
    }
}

/// A case-insensitive str
#[derive(Clone, Copy, Debug)]
pub struct Str<'a>(pub &'a str);

impl<'a> From<&'a str> for Str<'a> {
    fn from(value: &'a str) -> (text: Self)
        ensures
            text == Str(value),
    {
        Self(value)
    }
}

impl<'a> vstd::std_specs::convert::FromSpecImpl<&'a str> for Str<'a> {
    open spec fn obeys_from_spec() -> bool {
        true
    }

    open spec fn from_spec(value: &'a str) -> Self {
        Str(value)
    }
}

impl<'a> PartialEq for Str<'a> {
    fn eq(&self, other: &Self) -> (same: bool) {
        strs_match(self.0, other.0)
    }
}

impl<'a> vstd::std_specs::cmp::PartialEqSpecImpl for Str<'a> {
    open spec fn obeys_eq_spec() -> bool {
        true
    }

    open spec fn eq_spec(&self, other: &Self) -> bool {
        same_str(self.0@, other.0@)
    }
}

impl<'a> Eq for Str<'a> {

}

impl<'a> PartialEq<&str> for Str<'a> {
    fn eq(&self, other: &&str) -> (same: bool) {
        strs_match(self.0, *other)
    }
}

impl<'a> vstd::std_specs::cmp::PartialEqSpecImpl<&str> for Str<'a> {
    open spec fn obeys_eq_spec() -> bool {
        true
    }

    open spec fn eq_spec(&self, other: &&str) -> bool {
        same_str(self.0@, other@)
    }
}

} // verus!
