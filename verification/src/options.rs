//! Configuration for a symbol enumeration.

use vstd::prelude::*;

verus! {

/// Options for controlling which symbols are iterated over.
#[derive(Clone, Debug)]
pub struct Options {
    /// Should imported symbols be iterated over?
    pub imports: bool,
    /// Should exported symbols be iterated over?
    pub exports: bool,
    /// Should private symbols be iterated over?
    pub privates: bool,
    /// Should the symbols' sizes be computed?
    pub sizes: bool,
}

impl Default for Options {
    /// The default options enumerate every symbol kind but do not
    /// compute sizes.
    fn default() -> (r: Options)
        ensures
            r.imports,
            r.exports,
            r.privates,
            !r.sizes,
    {
        Options { imports: true, exports: true, privates: true, sizes: false }
    }
}

impl Options {
    /// Construct options for iterating over *none* of the symbol kinds.
    pub fn nothing() -> (r: Options)
        ensures
            !r.imports,
            !r.exports,
            !r.privates,
            !r.sizes,
    {
        Options { imports: false, exports: false, privates: false, sizes: false }
    }
}

} // verus!
