//! What can be wrong with an argument.

use vstd::prelude::*;

verus! {

/// The text given for a colour is neither a colour's name nor a colour code.
#[derive(Clone, Copy, Debug, PartialEq, Eq, Structural)]
pub struct InvalidColor;

impl InvalidColor {
    /// The words to show to the user.
    pub fn message(&self) -> (out: String)
        ensures
            out@ == "The provided color must be in hex format such as \"#ff0012\", or a named color such as \"red\"."@,
    {
        "The provided color must be in hex format such as \"#ff0012\", or a named color such as \"red\".".to_owned()
    }
}

} // verus!
