//! Naming of the environment files' locks for the `componentes` family.
use vstd::prelude::*;

use crate::components::env_io::{lock_path, replace_all};

verus! {

/// The lock file of a data file: the path with `.txt` replaced by `.lock`.
pub fn get_lock_path(data_path: &str) -> (r: String)
    ensures
        r@ == replace_all(data_path@, ".txt"@, ".lock"@),
{
    lock_path(data_path)
}

} // verus!
