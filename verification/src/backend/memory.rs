//! Choice of a device memory type for a GPU allocation.
use vstd::prelude::*;

use crate::types::{Result, ScalixError};

verus! {

/// Whether memory type `i` may serve an allocation: the allocation's type mask has bit `i` set,
/// and the type's property flags hold every flag in `required`.
pub open spec fn memory_type_fits(type_filter: u32, required: u32, flags: Seq<u32>, i: int) -> bool {
    &&& type_filter & (1u32 << (i as u32)) != 0
    &&& flags[i] & required == required
}

/// Finds the first memory type, among those whose property flags are listed in
/// `memory_type_flags` (at most the 32 types a device reports), that the allocation's
/// `type_filter` admits and whose flags hold every flag in `required`.
pub fn find_memory_type(type_filter: u32, required: u32, memory_type_flags: &[u32]) -> (r: Result<u32>)
    requires
        memory_type_flags.len() <= 32,
    ensures
        match r {
            Ok(i) => {
                &&& i < memory_type_flags.len()
                &&& memory_type_fits(type_filter, required, memory_type_flags@, i as int)
                &&& forall|j: int|
                    0 <= j < i ==> !#[trigger] memory_type_fits(
                        type_filter,
                        required,
                        memory_type_flags@,
                        j,
                    )
            },
            Err(e) => {
                &&& forall|j: int|
                    0 <= j < memory_type_flags.len() ==> !#[trigger] memory_type_fits(
                        type_filter,
                        required,
                        memory_type_flags@,
                        j,
                    )
                &&& e matches ScalixError::ExecutionFailed(m)
                &&& m@ == "Failed to find suitable memory type"@
            },
        },
{
    let n = memory_type_flags.len();
    let mut i: usize = 0;
    while i < n
        invariant
            n == memory_type_flags.len(),
            n <= 32,
            i <= n,
            forall|j: int|
                0 <= j < i ==> !#[trigger] memory_type_fits(type_filter, required, memory_type_flags@, j),
        decreases n - i,
    {
        let bit: u32 = 1u32 << (i as u32);
        if type_filter & bit != 0 && memory_type_flags[i] & required == required {
            return Ok(i as u32);
        }
        i = i + 1;
    }
    Err(ScalixError::ExecutionFailed("Failed to find suitable memory type".to_owned()))
}

} // verus!
