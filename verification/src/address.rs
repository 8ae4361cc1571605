use vstd::prelude::*;

use crate::text::{is_blank, is_blank_text};

verus! {

/// A public address on some chain, kept as the text the user gave.
#[derive(Debug, PartialEq, Eq)]
pub struct Address(String);

impl View for Address {
    type V = Seq<char>;

    closed spec fn view(&self) -> Seq<char> {
        self.0@
    }
}

impl Clone for Address {
    fn clone(&self) -> (copy: Self)
        ensures
            copy == *self,
    {
        Address(self.0.clone())
    }
}

impl Address {
    pub fn new(value: String) -> (address: Self)
        ensures
            address@ == value@,
    {
        Address(value)
    }

    pub fn as_str(&self) -> (text: &str)
        ensures
            text@ == self@,
    {
        self.0.as_str()
    }

    /// An address is blank when it is empty or holds only whitespace.
    pub fn is_blank(&self) -> (blank: bool)
        ensures
            blank == is_blank_text(self@),
    {
        is_blank(self.0.as_str())
    }
}

} // verus!
