//! Why no partition identifier could be obtained from the firmware.

use vstd::prelude::*;

verus! {

/// The reasons for which the boot partition cannot be identified. None of
/// them is fatal: the boot sequence goes on without mounting it.
#[derive(Clone, Copy, Debug, PartialEq, Eq, Structural)]
pub enum ResolveError {
    /// The variable naming the active boot entry is absent or unreadable.
    NoActiveBootEntry,
    /// The variable holding the active boot entry could not be read.
    BootEntryUnreadable,
    /// The boot entry or its device path is cut short or badly framed.
    MalformedDevicePath,
    /// The entry points at a partition of a disk that is not GPT-formatted.
    NotGpt,
    /// The entry points at no partition, or at one without a GUID signature.
    NoSignature,
    /// No partition with the entry's GUID appeared within the allowed number
    /// of polls.
    PartitionNotFound,
}

} // verus!
