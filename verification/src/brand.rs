//! The closed set of manufacturers.

use vstd::prelude::*;
use crate::text::{lowercase, same_text, to_lowercase};

verus! {

/// The manufacturer of a product.
#[derive(Clone, Copy, Debug, PartialEq, Eq, Structural)]
pub enum Brand {
    Apple,
    Google,
    Samsung,
}

impl Brand {
    /// The name of the brand as it is shown.
    pub open spec fn spec_name(self) -> Seq<char> {
        match self {
            Brand::Apple => "Apple"@,
            Brand::Google => "Google"@,
            Brand::Samsung => "Samsung"@,
        }
    }

    /// The brand that the lower-case text `text` names, if it names one.
    pub open spec fn spec_from_lowercase(text: Seq<char>) -> Option<Brand> {
        if text == "apple"@ {
            Some(Brand::Apple)
        } else if text == "google"@ {
            Some(Brand::Google)
        } else if text == "samsung"@ {
            Some(Brand::Samsung)
        } else {
            None
        }
    }

    /// The brand that `text` names when the case of its letters is ignored.
    pub open spec fn spec_parse(text: Seq<char>) -> Option<Brand> {
        Brand::spec_from_lowercase(lowercase(text))
    }

    /// The name of the brand as it is shown.
    pub fn name(&self) -> (r: &'static str)
        ensures
            r@ == self.spec_name(),
    {
        match self {
            Brand::Apple => "Apple",
            Brand::Google => "Google",
            Brand::Samsung => "Samsung",
        }
    }

    /// The brand whose name, in lower case, is exactly `text`; any other
    /// text names none.
    pub fn from_lowercase(text: &str) -> (r: Option<Brand>)
        ensures
            r == Brand::spec_from_lowercase(text@),
    {
        if same_text(text, "apple") {
            Some(Brand::Apple)
        } else if same_text(text, "google") {
            Some(Brand::Google)
        } else if same_text(text, "samsung") {
            Some(Brand::Samsung)
        } else {
            None
        }
    }

    /// The brand that `text` names, whatever the case of its letters.
    pub fn parse(text: &str) -> (r: Option<Brand>)
        ensures
            r == Brand::spec_parse(text@),
    {
        let folded = to_lowercase(text);
        Brand::from_lowercase(folded.as_str())
    }
}

} // verus!
