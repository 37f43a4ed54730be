//! The storage of a renderbuffer.

use vstd::prelude::*;

verus! {

/// How the storage of a renderbuffer is laid out.
#[derive(Debug, Clone, Copy, PartialEq, Eq)]
pub enum RenderbufferStorage {
    /// One sample for each pixel.
    Single,
    /// So many samples for each pixel.
    Multisample { samples: i32 },
}

/// The number of samples that a renderbuffer gets: what is desired, but no
/// more than the implementation offers.
pub open spec fn granted_samples(desired_sample_count: u32, max_samples: i32) -> int {
    if desired_sample_count < max_samples {
        desired_sample_count as int
    } else {
        max_samples as int
    }
}

/// Chooses the storage of a renderbuffer. With no sample or one sample
/// granted the storage holds one sample for each pixel.
pub fn choose_storage(desired_sample_count: u32, max_samples: i32) -> (storage: RenderbufferStorage)
    ensures
        storage == if granted_samples(desired_sample_count, max_samples) == 0 || granted_samples(
            desired_sample_count,
            max_samples,
        ) == 1 {
            RenderbufferStorage::Single
        } else {
            RenderbufferStorage::Multisample {
                samples: granted_samples(desired_sample_count, max_samples) as i32,
            }
        },
{
    let samples: i32 = if max_samples > 0 && desired_sample_count < max_samples as u32 {
        desired_sample_count as i32
    } else {
        max_samples
    };
    if samples == 0 || samples == 1 {
        RenderbufferStorage::Single
    } else {
        RenderbufferStorage::Multisample { samples }
    }
}

} // verus!
