//! The layout of the blob store: one file to the object, in one directory,
//! named exactly by the object's content address.

use vstd::prelude::*;
use vstd::string::StringExecFns;

verus! {

/// The path of the blob filed under `address` in the directory `store_dir`.
pub open spec fn blob_path_of(store_dir: Seq<char>, address: Seq<char>) -> Seq<char> {
    store_dir + seq!['/'] + address
}

/// The path of the blob filed under `address` in the directory `store_dir`:
/// the directory, a slash, and the address as it stands.
pub fn blob_path(store_dir: &str, address: &str) -> (path: String)
    ensures
        path@ == blob_path_of(store_dir@, address@),
{
    let mut path = store_dir.to_owned();
    proof {
        reveal_strlit("/");
    }
    path.append("/");
    path.append(address);
    path
}

} // verus!
