//! A small named byte wrapper.

use vstd::prelude::*;

verus! {

/// A wrapper around a single byte.
pub struct Value(pub u8);

/// Things that can report a display name.
pub trait Named {
    /// The name, as a mathematical sequence of characters.
    spec fn spec_name(&self) -> Seq<char>;

    /// Return the display name.
    fn get_name(&self) -> (s: String)
        ensures
            s@ == self.spec_name(),
    ;
}

impl Named for Value {
    open spec fn spec_name(&self) -> Seq<char> {
        "Byte"@
    }

    fn get_name(&self) -> (s: String) {
        String::from_str("Byte")
    }
}

impl Value {
    /// The successor of the wrapped byte.
    pub fn inc(&self) -> (r: u8)
        requires
            self.0 < 255,
        ensures
            r == self.0 + 1,
    {
        self.0 + 1
    }
}

} // verus!
