//! When the on-disk log file rolls over, and how much history is kept.

use vstd::prelude::*;

verus! {

/// The wall-clock boundary at which the active file is rolled over.
#[derive(Clone, Copy, Debug, PartialEq, Eq, Structural)]
pub enum Boundary {
    /// Time alone never rolls the file.
    Never,
    /// A new file for every calendar day.
    Daily,
    /// A new file for every hour.
    Hourly,
    /// A new file for every minute.
    Minutely,
}

/// Rule set of the rotating file sink. The file rolls at the time boundary
/// or at the size limit, whichever comes first, and at least one archived
/// file is kept.
#[derive(Clone, Copy, Debug, PartialEq, Eq, Structural)]
pub struct RotationPolicy {
    boundary: Boundary,
    max_size_bytes: u64,
    max_files_kept: u32,
}

/// Size limit of the pipeline's log file: 32 MiB.
pub const ON_DISK_MAX_SIZE_BYTES: u64 = 33_554_432;

/// Number of archived log files that the pipeline keeps.
pub const ON_DISK_MAX_FILES_KEPT: u32 = 3;

impl RotationPolicy {
    /// Every policy keeps at least one archived file.
    #[verifier::type_invariant]
    pub closed spec fn wf(&self) -> bool {
        self.max_files_kept >= 1
    }

    /// The time boundary.
    pub closed spec fn spec_boundary(&self) -> Boundary {
        self.boundary
    }

    /// The size, in bytes, at which the file rolls over.
    pub closed spec fn spec_max_size_bytes(&self) -> u64 {
        self.max_size_bytes
    }

    /// The number of archived files that are kept.
    pub closed spec fn spec_max_files_kept(&self) -> u32 {
        self.max_files_kept
    }

    /// The policy of the pipeline's log file: a new file every day and
    /// whenever the file has reached 32 MiB, three archived files kept.
    pub open spec fn spec_on_disk() -> RotationPolicy {
        Self::spec_of(Boundary::Daily, ON_DISK_MAX_SIZE_BYTES, ON_DISK_MAX_FILES_KEPT)
    }

    /// The policy with the given parts.
    pub closed spec fn spec_of(boundary: Boundary, max_size_bytes: u64, max_files_kept: u32) -> RotationPolicy {
        RotationPolicy { boundary, max_size_bytes, max_files_kept }
    }

    /// A policy is its three parts, and keeps its promise exactly if it
    /// keeps a file.
    pub proof fn parts_of(boundary: Boundary, max_size_bytes: u64, max_files_kept: u32)
        ensures
            Self::spec_of(boundary, max_size_bytes, max_files_kept).spec_boundary() == boundary,
            Self::spec_of(boundary, max_size_bytes, max_files_kept).spec_max_size_bytes() == max_size_bytes,
            Self::spec_of(boundary, max_size_bytes, max_files_kept).spec_max_files_kept() == max_files_kept,
            Self::spec_of(boundary, max_size_bytes, max_files_kept).wf() <==> max_files_kept >= 1,
    {
    }

    /// Builds a policy, or refuses one that would keep no file at all.
    pub fn new(boundary: Boundary, max_size_bytes: u64, max_files_kept: u32) -> (policy: Option<RotationPolicy>)
        ensures
            max_files_kept == 0 <==> policy is None,
            policy is Some ==> policy->Some_0 == Self::spec_of(boundary, max_size_bytes, max_files_kept),
            policy is Some ==> policy->Some_0.spec_boundary() == boundary,
            policy is Some ==> policy->Some_0.spec_max_size_bytes() == max_size_bytes,
            policy is Some ==> policy->Some_0.spec_max_files_kept() == max_files_kept,
    {
        if max_files_kept == 0 {
            None
        } else {
            Some(RotationPolicy { boundary, max_size_bytes, max_files_kept })
        }
    }

    /// The policy of the pipeline's log file.
    pub fn on_disk() -> (policy: RotationPolicy)
        ensures
            policy == Self::spec_on_disk(),
            policy.spec_boundary() == Boundary::Daily,
            policy.spec_max_size_bytes() == ON_DISK_MAX_SIZE_BYTES,
            policy.spec_max_files_kept() == ON_DISK_MAX_FILES_KEPT,
    {
        RotationPolicy {
            boundary: Boundary::Daily,
            max_size_bytes: ON_DISK_MAX_SIZE_BYTES,
            max_files_kept: ON_DISK_MAX_FILES_KEPT,
        }
    }

    /// The time boundary.
    pub fn boundary(&self) -> (b: Boundary)
        ensures
            b == self.spec_boundary(),
    {
        self.boundary
    }

    /// The size, in bytes, at which the file rolls over.
    pub fn max_size_bytes(&self) -> (n: u64)
        ensures
            n == self.spec_max_size_bytes(),
    {
        self.max_size_bytes
    }

    /// The number of archived files that are kept.
    pub fn max_files_kept(&self) -> (n: u32)
        ensures
            n == self.spec_max_files_kept(),
            n >= 1,
    {
        proof {
            use_type_invariant(self);
        }
        self.max_files_kept
    }
}

} // verus!
