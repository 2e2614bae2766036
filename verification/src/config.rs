//! The switches that select which steps of the boot sequence run.

use vstd::prelude::*;

verus! {

/// Options of the boot sequence, fixed before the sequence starts.
#[derive(Clone, Copy, Debug)]
pub struct Config {
    stdio: bool,
    mount_boot: bool,
    mount_sys: bool,
    poll_limit: Option<u32>,
}

impl Config {
    /// Whether the console is wired to descriptors 0, 1 and 2.
    pub closed spec fn spec_wire_stdio(&self) -> bool {
        self.stdio
    }

    /// Whether the boot partition is searched for and mounted.
    pub closed spec fn spec_mount_boot_partition(&self) -> bool {
        self.mount_boot
    }

    /// Whether the kernel and firmware information filesystems are mounted.
    pub closed spec fn spec_mount_system_filesystems(&self) -> bool {
        self.mount_sys
    }

    /// How many times the block devices may be listed in search of the boot
    /// partition; `None` where the search goes on until it succeeds.
    pub closed spec fn spec_poll_limit(&self) -> Option<u32> {
        self.poll_limit
    }

    /// The default options: wire the console, mount the system filesystems,
    /// leave the boot partition alone, and put no limit on a search for it.
    pub fn new() -> (c: Config)
        ensures
            c.spec_wire_stdio(),
            !c.spec_mount_boot_partition(),
            c.spec_mount_system_filesystems(),
            c.spec_poll_limit() is None,
    {
        Config { stdio: true, mount_boot: false, mount_sys: true, poll_limit: None }
    }

    /// Sets whether the console is wired to the standard descriptors.
    pub fn stdio(self, arg: bool) -> (c: Config)
        ensures
            c.spec_wire_stdio() == arg,
            c.spec_mount_boot_partition() == self.spec_mount_boot_partition(),
            c.spec_mount_system_filesystems() == self.spec_mount_system_filesystems(),
            c.spec_poll_limit() == self.spec_poll_limit(),
    {
        Config { stdio: arg, ..self }
    }

    /// Sets whether the boot partition is searched for and mounted.
    pub fn mount_boot(self, arg: bool) -> (c: Config)
        ensures
            c.spec_wire_stdio() == self.spec_wire_stdio(),
            c.spec_mount_boot_partition() == arg,
            c.spec_mount_system_filesystems() == self.spec_mount_system_filesystems(),
            c.spec_poll_limit() == self.spec_poll_limit(),
    {
        Config { mount_boot: arg, ..self }
    }

    /// Sets whether the system filesystems are mounted.
    pub fn mount_sys(self, arg: bool) -> (c: Config)
        ensures
            c.spec_wire_stdio() == self.spec_wire_stdio(),
            c.spec_mount_boot_partition() == self.spec_mount_boot_partition(),
            c.spec_mount_system_filesystems() == arg,
            c.spec_poll_limit() == self.spec_poll_limit(),
    {
        Config { mount_sys: arg, ..self }
    }

    /// Sets how many times the block devices may be listed in search of the
    /// boot partition. With `None` the search goes on until it succeeds.
    pub fn poll_limit(self, limit: Option<u32>) -> (c: Config)
        ensures
            c.spec_wire_stdio() == self.spec_wire_stdio(),
            c.spec_mount_boot_partition() == self.spec_mount_boot_partition(),
            c.spec_mount_system_filesystems() == self.spec_mount_system_filesystems(),
            c.spec_poll_limit() == limit,
    {
        Config { poll_limit: limit, ..self }
    }

    /// Reads the console switch.
    #[verifier::when_used_as_spec(spec_wire_stdio)]
    pub fn wire_stdio(&self) -> (b: bool)
        ensures
            b == self.spec_wire_stdio(),
    {
        self.stdio
    }

    /// Reads the boot-partition switch.
    #[verifier::when_used_as_spec(spec_mount_boot_partition)]
    pub fn mount_boot_partition(&self) -> (b: bool)
        ensures
            b == self.spec_mount_boot_partition(),
    {
        self.mount_boot
    }

    /// Reads the limit on the search for the boot partition.
    #[verifier::when_used_as_spec(spec_poll_limit)]
    pub fn max_polls(&self) -> (limit: Option<u32>)
        ensures
            limit == self.spec_poll_limit(),
    {
        self.poll_limit
    }

    /// Reads the system-filesystems switch.
    #[verifier::when_used_as_spec(spec_mount_system_filesystems)]
    pub fn mount_system_filesystems(&self) -> (b: bool)
        ensures
            b == self.spec_mount_system_filesystems(),
    {
        self.mount_sys
    }
}

} // verus!
