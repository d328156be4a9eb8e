//! Choice of the GPU device a backend runs on: the Vulkan physical device and queue family,
//! and the OpenCL platform.
use vstd::prelude::*;

use crate::types::{Result, ScalixError};

verus! {

/// `VkPhysicalDeviceType` codes.
pub const VK_PHYSICAL_DEVICE_TYPE_INTEGRATED_GPU: i32 = 1;
pub const VK_PHYSICAL_DEVICE_TYPE_DISCRETE_GPU: i32 = 2;
pub const VK_PHYSICAL_DEVICE_TYPE_VIRTUAL_GPU: i32 = 3;

/// `VkQueueFlagBits` the backend needs one of.
pub const VK_QUEUE_GRAPHICS_BIT: u32 = 0x1;
pub const VK_QUEUE_COMPUTE_BIT: u32 = 0x2;

/// Preference of a device type: discrete, then integrated, then virtual GPUs, then the rest.
pub open spec fn device_rank(device_type: i32) -> int {
    if device_type == VK_PHYSICAL_DEVICE_TYPE_DISCRETE_GPU {
        3
    } else if device_type == VK_PHYSICAL_DEVICE_TYPE_INTEGRATED_GPU {
        2
    } else if device_type == VK_PHYSICAL_DEVICE_TYPE_VIRTUAL_GPU {
        1
    } else {
        0
    }
}

fn rank_of(device_type: i32) -> (r: u8)
    ensures
        r == device_rank(device_type),
{
    if device_type == VK_PHYSICAL_DEVICE_TYPE_DISCRETE_GPU {
        3
    } else if device_type == VK_PHYSICAL_DEVICE_TYPE_INTEGRATED_GPU {
        2
    } else if device_type == VK_PHYSICAL_DEVICE_TYPE_VIRTUAL_GPU {
        1
    } else {
        0
    }
}

/// Index of the physical device to use among devices of the given types: one of the best
/// ranked, the last of them when several tie; `None` when there is no device.
pub fn pick_physical_device(device_types: &[i32]) -> (r: Option<usize>)
    ensures
        match r {
            None => device_types@.len() == 0,
            Some(i) => {
                &&& i < device_types@.len()
                &&& forall|j: int|
                    0 <= j < device_types@.len() ==> device_rank(#[trigger] device_types@[j])
                        <= device_rank(device_types@[i as int])
                &&& forall|j: int|
                    i < j < device_types@.len() ==> device_rank(#[trigger] device_types@[j])
                        < device_rank(device_types@[i as int])
            },
        },
{
    let n = device_types.len();
    if n == 0 {
        return None;
    }
    let mut best: usize = 0;
    let mut best_rank: u8 = rank_of(device_types[0]);
    let mut k: usize = 1;
    while k < n
        invariant
            n == device_types@.len(),
            1 <= k <= n,
            best < k,
            best_rank == device_rank(device_types@[best as int]),
            forall|j: int| 0 <= j < k ==> device_rank(#[trigger] device_types@[j]) <= best_rank,
            forall|j: int| best < j < k ==> device_rank(#[trigger] device_types@[j]) < best_rank,
        decreases n - k,
    {
        let r = rank_of(device_types[k]);
        if r >= best_rank {
            best = k;
            best_rank = r;
        }
        k = k + 1;
    }
    Some(best)
}

/// Whether a queue family with flags `flags` can run the backend's work.
pub open spec fn queue_family_fits(flags: u32) -> bool {
    flags & VK_QUEUE_GRAPHICS_BIT != 0 || flags & VK_QUEUE_COMPUTE_BIT != 0
}

/// Index of the first queue family, among families with the given flags, that supports
/// graphics or compute work.
pub fn pick_queue_family(queue_flags: &[u32]) -> (r: Result<u32>)
    requires
        queue_flags@.len() <= u32::MAX,
    ensures
        match r {
            Ok(i) => {
                &&& i < queue_flags@.len()
                &&& queue_family_fits(queue_flags@[i as int])
                &&& forall|j: int| 0 <= j < i ==> !queue_family_fits(#[trigger] queue_flags@[j])
            },
            Err(e) => {
                &&& forall|j: int|
                    0 <= j < queue_flags@.len() ==> !queue_family_fits(#[trigger] queue_flags@[j])
                &&& e matches ScalixError::ExecutionFailed(m)
                &&& m@ == "No suitable Vulkan queue family found"@
            },
        },
{
    let n = queue_flags.len();
    let mut i: usize = 0;
    while i < n
        invariant
            n == queue_flags@.len(),
            n <= u32::MAX,
            i <= n,
            forall|j: int| 0 <= j < i ==> !queue_family_fits(#[trigger] queue_flags@[j]),
        decreases n - i,
    {
        let f = queue_flags[i];
        if f & VK_QUEUE_GRAPHICS_BIT != 0 || f & VK_QUEUE_COMPUTE_BIT != 0 {
            return Ok(i as u32);
        }
        i = i + 1;
    }
    Err(ScalixError::ExecutionFailed("No suitable Vulkan queue family found".to_owned()))
}

/// Index of the first non-zero count.
fn first_nonzero(counts: &[u32]) -> (r: Option<usize>)
    ensures
        match r {
            Some(i) => i < counts@.len() && counts@[i as int] > 0 && forall|j: int|
                0 <= j < i ==> #[trigger] counts@[j] == 0,
            None => forall|j: int| 0 <= j < counts@.len() ==> #[trigger] counts@[j] == 0,
        },
{
    let mut i: usize = 0;
    while i < counts.len()
        invariant
            i <= counts@.len(),
            forall|j: int| 0 <= j < i ==> #[trigger] counts@[j] == 0,
        decreases counts@.len() - i,
    {
        if counts[i] > 0 {
            return Some(i);
        }
        i = i + 1;
    }
    None
}

/// OpenCL platform to run on, from the number of GPU devices and of devices of any type each
/// platform reports (0 where the query failed): the first platform with a GPU, else the first
/// with any device; the flag tells whether the device is a GPU.
pub fn pick_opencl_platform(gpu_device_counts: &[u32], any_device_counts: &[u32]) -> (r: Option<
    (usize, bool),
>)
    ensures
        match r {
            Some((i, true)) => {
                &&& i < gpu_device_counts@.len() && gpu_device_counts@[i as int] > 0
                &&& forall|j: int| 0 <= j < i ==> #[trigger] gpu_device_counts@[j] == 0
            },
            Some((i, false)) => {
                &&& forall|j: int|
                    0 <= j < gpu_device_counts@.len() ==> #[trigger] gpu_device_counts@[j] == 0
                &&& i < any_device_counts@.len() && any_device_counts@[i as int] > 0
                &&& forall|j: int| 0 <= j < i ==> #[trigger] any_device_counts@[j] == 0
            },
            None => {
                &&& forall|j: int|
                    0 <= j < gpu_device_counts@.len() ==> #[trigger] gpu_device_counts@[j] == 0
                &&& forall|j: int|
                    0 <= j < any_device_counts@.len() ==> #[trigger] any_device_counts@[j] == 0
            },
        },
{
    match first_nonzero(gpu_device_counts) {
        Some(i) => Some((i, true)),
        None => match first_nonzero(any_device_counts) {
            Some(i) => Some((i, false)),
            None => None,
        },
    }
}

/// Law: device types are preferred in the order discrete GPU (type 2), integrated GPU (type 1),
/// virtual GPU (type 3), and every other type after those.
pub proof fn lemma_device_preference(other: i32)
    requires
        other != 1 && other != 2 && other != 3,
    ensures
        device_rank(2) > device_rank(1),
        device_rank(1) > device_rank(3),
        device_rank(3) > device_rank(other),
{
}

/// Law: a queue family is usable exactly when it supports graphics (bit 0) or compute (bit 1)
/// work.
pub proof fn lemma_queue_family_needs_graphics_or_compute(flags: u32)
    ensures
        queue_family_fits(flags) <==> (flags & 1 != 0 || flags & 2 != 0),
{
}

} // verus!
