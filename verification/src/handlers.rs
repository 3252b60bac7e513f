//! The operations of the store, as the service around the library runs
//! them.
//!
//! The library does no input or output. Each operation is a session that
//! names the next thing to do outside (create a blob, look a record up, read
//! the next chunk) and is told how it went; the service does the work. The
//! order of the steps, what a failure leads to and what is cleaned up after
//! it are decided here.

pub mod delete;
pub mod retrieve;
pub mod store;

use vstd::prelude::*;

verus! {

/// What a caller presents to retrieve or delete an object: the mnemonic, and
/// nothing else.
#[derive(Debug, PartialEq, Eq)]
pub struct AccessInfo {
    pub mnemonic: String,
}

impl AccessInfo {
    /// The credentials that consist of `mnemonic`.
    pub fn new(mnemonic: String) -> (access: AccessInfo)
        ensures
            access.mnemonic@ == mnemonic@,
    {
        AccessInfo { mnemonic }
    }
}

impl Clone for AccessInfo {
    fn clone(&self) -> (copy: AccessInfo)
        ensures
            copy.mnemonic@ == self.mnemonic@,
    {
        AccessInfo { mnemonic: self.mnemonic.clone() }
    }
}

} // verus!
