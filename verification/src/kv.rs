//! Key-value pairs attached to loggers and to individual logging calls.

use vstd::prelude::*;

verus! {

/// An owned key-value pair, bound into a `Logger` at construction time and
/// inherited by every child derived from it.
#[derive(Debug)]
pub struct OwnedKeyValue {
    /// The key under which the value is reported.
    pub key: String,
    /// The reported value.
    pub value: String,
}

impl OwnedKeyValue {
    /// Build an owned pair from borrowed text.
    pub fn new(key: &str, value: &str) -> (r: OwnedKeyValue)
        ensures
            r.key@ == key@,
            r.value@ == value@,
    {
        OwnedKeyValue { key: key.to_owned(), value: value.to_owned() }
    }
}

impl Clone for OwnedKeyValue {
    fn clone(&self) -> (r: Self)
        ensures
            r == *self,
    {
        OwnedKeyValue { key: self.key.clone(), value: self.value.clone() }
    }
}

/// A borrowed key-value pair, supplied at call time and valid only for the
/// duration of the logging call.
#[derive(Debug, Clone, Copy)]
pub struct BorrowedKeyValue<'a> {
    /// The key under which the value is reported.
    pub key: &'a str,
    /// The reported value.
    pub value: &'a str,
}

} // verus!
