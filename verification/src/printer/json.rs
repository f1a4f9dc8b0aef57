//! The printer of JSON.

use vstd::prelude::*;

verus! {

/// Says how documentation nodes are written as JSON: on one line, or over
/// several lines with indentation where `pretty_print` is set.
#[derive(Debug)]
pub struct JSONPrinter {
    pub pretty_print: bool,
}

impl JSONPrinter {
    /// A printer that writes on several lines if and only if `pretty_print`
    /// is set.
    pub fn new(pretty_print: bool) -> (printer: JSONPrinter)
        ensures
            printer.pretty_print == pretty_print,
    {
        JSONPrinter { pretty_print }
    }
}

} // verus!
