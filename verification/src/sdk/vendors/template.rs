//! Scaffold for a new vendor: copy this module to implement a new scanner.
use vstd::prelude::*;

verus! {

/// Placeholder scanner of the vendor scaffold.
#[derive(Debug, Clone, Copy, PartialEq, Eq)]
pub struct TemplateScanner;

impl TemplateScanner {
    pub fn new() -> (s: Self)
        ensures
            s == TemplateScanner,
    {
        TemplateScanner
    }
}

} // verus!
