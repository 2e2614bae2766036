//! The boot sequence: which operation comes next, given how the last one
//! went.
//!
//! The order is fixed. The device filesystem is mounted first. Then, each
//! if enabled: the console is wired to descriptors 0, 1 and 2; the system
//! filesystems are mounted; the partition the firmware booted from is
//! searched for and mounted. A failed mount or console operation ends the
//! sequence at once. A boot partition that cannot be identified, or that
//! does not appear within the allowed number of polls, is no failure: the
//! sequence finishes without mounting it.

use crate::boot_entry::{
    boot_current_index, boot_current_name, boot_entry_name, boot_partition_guid,
    spec_boot_current_index, spec_boot_entry_name, spec_boot_partition_guid,
};
use crate::config::Config;
use crate::error::ResolveError;
use crate::matcher::{Matcher, MatcherView, DEFAULT_POLL_MILLIS};
use crate::protocol::{Reply, ReplyView, Request, RequestView};
use vstd::prelude::*;
use vstd::string::*;

verus! {

/// Permission bits of the mount points that the sequence creates.
pub const MOUNT_POINT_MODE: u32 = 0o777;

/// The operation whose outcome the sequence is waiting for.
#[derive(Clone, Copy, Debug, PartialEq, Eq, Structural)]
pub enum Stage {
    /// Mounting the device filesystem.
    MountDevices,
    /// Opening the console for reading.
    OpenConsoleIn,
    /// Opening the console for writing.
    OpenConsoleOut,
    /// Duplicating the console onto descriptor 0.
    DupStdin,
    /// Duplicating the console onto descriptor 1.
    DupStdout,
    /// Duplicating the console onto descriptor 2.
    DupStderr,
    /// Closing the descriptor the console was opened under for reading.
    CloseConsoleIn,
    /// Closing the descriptor the console was opened under for writing.
    CloseConsoleOut,
    /// Creating the mount point of the kernel's information filesystem.
    MakeSysDir,
    /// Mounting the kernel's information filesystem.
    MountSys,
    /// Probing for the firmware's directory.
    ProbeFirmware,
    /// Mounting the firmware-variable filesystem.
    MountEfiVars,
    /// Reading which boot entry is active.
    ReadBootCurrent,
    /// Reading the active boot entry.
    ReadBootEntry,
    /// Searching for the boot partition.
    Searching,
    /// Creating the mount point of the boot partition.
    MakeBootDir,
    /// Mounting the boot partition.
    MountBoot,
    /// The sequence is complete.
    Finished,
    /// A required operation failed.
    Failed,
}

/// The position of a stage in the fixed order of the sequence.
pub open spec fn spec_rank(stage: Stage) -> int {
    match stage {
        Stage::MountDevices => 0,
        Stage::OpenConsoleIn => 1,
        Stage::OpenConsoleOut => 2,
        Stage::DupStdin => 3,
        Stage::DupStdout => 4,
        Stage::DupStderr => 5,
        Stage::CloseConsoleIn => 6,
        Stage::CloseConsoleOut => 7,
        Stage::MakeSysDir => 8,
        Stage::MountSys => 9,
        Stage::ProbeFirmware => 10,
        Stage::MountEfiVars => 11,
        Stage::ReadBootCurrent => 12,
        Stage::ReadBootEntry => 13,
        Stage::Searching => 14,
        Stage::MakeBootDir => 15,
        Stage::MountBoot => 16,
        Stage::Finished => 17,
        Stage::Failed => 18,
    }
}

/// The request to mount `source` at `target`, with no flags and no options.
pub open spec fn spec_mount(source: Seq<char>, target: Seq<char>, fstype: Seq<char>) -> RequestView {
    RequestView::Mount { source, target, fstype, flags: 0, data: Seq::empty() }
}

/// The state of the sequence, as mathematics.
#[verifier::ext_equal]
pub struct SequencerView {
    /// Whether the console is to be wired.
    pub wire_stdio: bool,
    /// Whether the boot partition is to be mounted.
    pub mount_boot: bool,
    /// Whether the system filesystems are to be mounted.
    pub mount_sys: bool,
    /// How many polls the search for the boot partition may take.
    pub poll_limit: Option<u32>,
    /// The operation that is under way.
    pub stage: Stage,
    /// The descriptor the console was opened under for reading.
    pub console_in: i32,
    /// The descriptor the console was opened under for writing.
    pub console_out: i32,
    /// The number of the active boot entry.
    pub boot_index: u16,
    /// The search for the boot partition, once it has begun.
    pub search: Option<MatcherView>,
    /// The device node of the boot partition, once it is found.
    pub boot_device: Seq<char>,
    /// Why the boot partition was not mounted, if it could not be identified
    /// or found.
    pub skipped: Option<ResolveError>,
}

impl SequencerView {
    /// The state before the first operation. A process that is not the
    /// system's first has nothing to do.
    pub open spec fn initial(config: Config, is_init: bool) -> SequencerView {
        SequencerView {
            wire_stdio: config.spec_wire_stdio(),
            mount_boot: config.spec_mount_boot_partition(),
            mount_sys: config.spec_mount_system_filesystems(),
            poll_limit: config.spec_poll_limit(),
            stage: if is_init {
                Stage::MountDevices
            } else {
                Stage::Finished
            },
            console_in: 0,
            console_out: 0,
            boot_index: 0,
            search: None,
            boot_device: Seq::empty(),
            skipped: None,
        }
    }

    /// While the search runs it has neither found the partition nor given
    /// up; once the boot partition is being mounted, its device node is what
    /// the search found.
    pub open spec fn wf(self) -> bool {
        &&& self.stage is Searching ==> {
            &&& self.search is Some
            &&& self.search->0.wf()
            &&& !(self.search->0.phase is Resolved)
            &&& !(self.search->0.phase is Exhausted)
        }
        &&& self.stage is MakeBootDir || self.stage is MountBoot ==> {
            &&& self.search is Some
            &&& self.search->0.phase is Resolved
            &&& self.boot_device == self.search->0.resolved
        }
    }

    /// What the driver is asked to do in this state.
    pub open spec fn request(self) -> RequestView {
        match self.stage {
            Stage::MountDevices => spec_mount("none"@, "/dev"@, "devtmpfs"@),
            Stage::OpenConsoleIn => RequestView::Open { path: "/dev/console"@, write: false },
            Stage::OpenConsoleOut => RequestView::Open { path: "/dev/console"@, write: true },
            Stage::DupStdin => RequestView::Duplicate { from: self.console_in, to: 0 },
            Stage::DupStdout => RequestView::Duplicate { from: self.console_out, to: 1 },
            Stage::DupStderr => RequestView::Duplicate { from: self.console_out, to: 2 },
            Stage::CloseConsoleIn => RequestView::Close { fd: self.console_in },
            Stage::CloseConsoleOut => RequestView::Close { fd: self.console_out },
            Stage::MakeSysDir => RequestView::MakeDir { path: "/sys/"@, mode: MOUNT_POINT_MODE },
            Stage::MountSys => spec_mount("none"@, "/sys"@, "sysfs"@),
            Stage::ProbeFirmware => RequestView::ProbePath { path: "/sys/firmware/efi"@ },
            Stage::MountEfiVars => spec_mount(
                "efivarfs"@,
                "/sys/firmware/efi/efivars"@,
                "efivarfs"@,
            ),
            Stage::ReadBootCurrent => RequestView::ReadVariable { name: "BootCurrent"@ },
            Stage::ReadBootEntry => RequestView::ReadVariable {
                name: spec_boot_entry_name(self.boot_index),
            },
            Stage::Searching => match self.search {
                Some(search) => match search.request() {
                    Some(request) => request,
                    None => RequestView::Abort,
                },
                None => RequestView::Abort,
            },
            Stage::MakeBootDir => RequestView::MakeDir { path: "/boot/"@, mode: MOUNT_POINT_MODE },
            Stage::MountBoot => spec_mount(self.boot_device, "/boot"@, "vfat"@),
            Stage::Finished => RequestView::Finish,
            Stage::Failed => RequestView::Abort,
        }
    }

    /// The same state at another stage.
    pub open spec fn at(self, stage: Stage) -> SequencerView {
        SequencerView { stage, ..self }
    }

    /// The state once the console is dealt with.
    pub open spec fn after_console(self) -> SequencerView {
        if self.mount_sys {
            self.at(Stage::MakeSysDir)
        } else if self.mount_boot {
            self.at(Stage::ProbeFirmware)
        } else {
            self.at(Stage::Finished)
        }
    }

    /// The state once the device filesystem is mounted.
    pub open spec fn after_devices(self) -> SequencerView {
        if self.wire_stdio {
            self.at(Stage::OpenConsoleIn)
        } else {
            self.after_console()
        }
    }

    /// The state once the console is duplicated onto descriptor 1 and 2, or
    /// once its first descriptor is closed: a descriptor above 2 is closed,
    /// one that is itself 0, 1 or 2 is kept.
    pub open spec fn after_duplicates(self, input_done: bool) -> SequencerView {
        if !input_done && self.console_in > 2 {
            self.at(Stage::CloseConsoleIn)
        } else if self.console_out > 2 {
            self.at(Stage::CloseConsoleOut)
        } else {
            self.after_console()
        }
    }

    /// The state once the system filesystems are dealt with, given whether
    /// the firmware's directory was found.
    pub open spec fn after_system(self, firmware: bool) -> SequencerView {
        if self.mount_boot && firmware {
            self.at(Stage::ReadBootCurrent)
        } else {
            self.at(Stage::Finished)
        }
    }

    /// The state when the boot partition cannot be identified or found: the
    /// sequence is complete, without it.
    pub open spec fn skip(self, reason: ResolveError) -> SequencerView {
        SequencerView { stage: Stage::Finished, skipped: Some(reason), ..self }
    }

    /// The state that follows from the state of the search: the boot
    /// partition is mounted once it is found and left out once the search
    /// has given up; until then the search goes on.
    pub open spec fn settle(self, search: MatcherView) -> SequencerView {
        let with_search = SequencerView { search: Some(search), ..self };
        if search.phase is Resolved {
            SequencerView {
                boot_device: search.resolved,
                stage: Stage::MakeBootDir,
                ..with_search
            }
        } else if search.phase is Exhausted {
            with_search.skip(ResolveError::PartitionNotFound)
        } else {
            with_search.at(Stage::Searching)
        }
    }

    /// The state after a required operation, which either was carried out
    /// or ends the sequence.
    pub open spec fn require(self, reply: ReplyView, next: SequencerView) -> SequencerView {
        if reply is Done {
            next
        } else {
            self.at(Stage::Failed)
        }
    }

    /// The state after the driver's reply to `self.request()`. A reply of a
    /// kind that does not answer the request counts as a failure of it.
    pub open spec fn step(self, reply: ReplyView) -> SequencerView {
        match self.stage {
            Stage::MountDevices => self.require(reply, self.after_devices()),
            Stage::OpenConsoleIn => match reply {
                ReplyView::Descriptor(fd) if fd >= 0 => SequencerView {
                    console_in: fd,
                    stage: Stage::OpenConsoleOut,
                    ..self
                },
                _ => self.at(Stage::Failed),
            },
            Stage::OpenConsoleOut => match reply {
                ReplyView::Descriptor(fd) if fd >= 0 => SequencerView {
                    console_out: fd,
                    stage: Stage::DupStdin,
                    ..self
                },
                _ => self.at(Stage::Failed),
            },
            Stage::DupStdin => self.require(reply, self.at(Stage::DupStdout)),
            Stage::DupStdout => self.require(reply, self.at(Stage::DupStderr)),
            Stage::DupStderr => self.require(reply, self.after_duplicates(false)),
            Stage::CloseConsoleIn => self.require(reply, self.after_duplicates(true)),
            Stage::CloseConsoleOut => self.require(reply, self.after_console()),
            Stage::MakeSysDir => self.require(reply, self.at(Stage::MountSys)),
            Stage::MountSys => self.require(reply, self.at(Stage::ProbeFirmware)),
            Stage::ProbeFirmware => {
                let firmware = reply == ReplyView::Exists(true);
                if self.mount_sys && firmware {
                    self.at(Stage::MountEfiVars)
                } else {
                    self.after_system(firmware)
                }
            },
            Stage::MountEfiVars => self.require(reply, self.after_system(true)),
            Stage::ReadBootCurrent => match reply {
                ReplyView::Bytes(raw) => match spec_boot_current_index(raw) {
                    Ok(index) => SequencerView {
                        boot_index: index,
                        stage: Stage::ReadBootEntry,
                        ..self
                    },
                    Err(reason) => self.skip(reason),
                },
                _ => self.skip(ResolveError::NoActiveBootEntry),
            },
            Stage::ReadBootEntry => match reply {
                ReplyView::Bytes(raw) => match spec_boot_partition_guid(raw) {
                    Ok(guid) => self.settle(
                        MatcherView::initial(guid, DEFAULT_POLL_MILLIS, self.poll_limit),
                    ),
                    Err(reason) => self.skip(reason),
                },
                _ => self.skip(ResolveError::BootEntryUnreadable),
            },
            Stage::Searching => match self.search {
                Some(search) => self.settle(search.step(reply)),
                None => self.at(Stage::Failed),
            },
            Stage::MakeBootDir => self.require(reply, self.at(Stage::MountBoot)),
            Stage::MountBoot => self.require(reply, self.at(Stage::Finished)),
            Stage::Finished => self,
            Stage::Failed => self,
        }
    }
}

/// Builds the request to mount `source` at `target`, with no flags and no
/// options.
pub fn mount_request(source: &str, target: &str, fstype: &str) -> (request: Request)
    ensures
        request@ == spec_mount(source@, target@, fstype@),
{
    Request::Mount {
        source: String::from_str(source),
        target: String::from_str(target),
        fstype: String::from_str(fstype),
        flags: 0,
        data: String::new(),
    }
}

/// The boot sequence in progress.
pub struct Sequencer {
    config: Config,
    stage: Stage,
    console_in: i32,
    console_out: i32,
    boot_index: u16,
    search: Option<Matcher>,
    boot_device: String,
    skipped: Option<ResolveError>,
}

impl View for Sequencer {
    type V = SequencerView;

    closed spec fn view(&self) -> SequencerView {
        SequencerView {
            wire_stdio: self.config.spec_wire_stdio(),
            mount_boot: self.config.spec_mount_boot_partition(),
            mount_sys: self.config.spec_mount_system_filesystems(),
            poll_limit: self.config.spec_poll_limit(),
            stage: self.stage,
            console_in: self.console_in,
            console_out: self.console_out,
            boot_index: self.boot_index,
            search: match self.search {
                Some(search) => Some(search@),
                None => None,
            },
            boot_device: self.boot_device@,
            skipped: self.skipped,
        }
    }
}

impl Sequencer {
    /// Whether the state is one that the sequence can be in.
    pub open spec fn wf(&self) -> bool {
        self@.wf()
    }

    /// Prepares the sequence that `config` selects. `is_init` tells whether
    /// the process is the system's first: any other process finishes at
    /// once, without touching anything.
    pub fn new(config: Config, is_init: bool) -> (s: Sequencer)
        ensures
            s@ == SequencerView::initial(config, is_init),
            s.wf(),
    {
        let s = Sequencer {
            config,
            stage: if is_init {
                Stage::MountDevices
            } else {
                Stage::Finished
            },
            console_in: 0,
            console_out: 0,
            boot_index: 0,
            search: None,
            boot_device: String::new(),
            skipped: None,
        };
        assert(s@ =~= SequencerView::initial(config, is_init));
        s
    }

    /// The stage that the sequence is at.
    pub fn stage(&self) -> (stage: Stage)
        ensures
            stage == self@.stage,
    {
        self.stage
    }

    /// Why the boot partition was not mounted, if it could not be
    /// identified or found.
    pub fn skipped(&self) -> (reason: Option<ResolveError>)
        ensures
            reason == self@.skipped,
    {
        self.skipped
    }

    /// What the driver is to do now.
    pub fn request(&self) -> (request: Request)
        requires
            self.wf(),
        ensures
            request@ == self@.request(),
    {
        match self.stage {
            Stage::MountDevices => mount_request("none", "/dev", "devtmpfs"),
            Stage::OpenConsoleIn => Request::Open {
                path: String::from_str("/dev/console"),
                write: false,
            },
            Stage::OpenConsoleOut => Request::Open {
                path: String::from_str("/dev/console"),
                write: true,
            },
            Stage::DupStdin => Request::Duplicate { from: self.console_in, to: 0 },
            Stage::DupStdout => Request::Duplicate { from: self.console_out, to: 1 },
            Stage::DupStderr => Request::Duplicate { from: self.console_out, to: 2 },
            Stage::CloseConsoleIn => Request::Close { fd: self.console_in },
            Stage::CloseConsoleOut => Request::Close { fd: self.console_out },
            Stage::MakeSysDir => Request::MakeDir {
                path: String::from_str("/sys/"),
                mode: MOUNT_POINT_MODE,
            },
            Stage::MountSys => mount_request("none", "/sys", "sysfs"),
            Stage::ProbeFirmware => Request::ProbePath {
                path: String::from_str("/sys/firmware/efi"),
            },
            Stage::MountEfiVars => mount_request(
                "efivarfs",
                "/sys/firmware/efi/efivars",
                "efivarfs",
            ),
            Stage::ReadBootCurrent => Request::ReadVariable { name: boot_current_name() },
            Stage::ReadBootEntry => Request::ReadVariable {
                name: boot_entry_name(self.boot_index),
            },
            Stage::Searching => match &self.search {
                Some(search) => match search.request() {
                    Some(request) => request,
                    None => Request::Abort,
                },
                None => Request::Abort,
            },
            Stage::MakeBootDir => Request::MakeDir {
                path: String::from_str("/boot/"),
                mode: MOUNT_POINT_MODE,
            },
            Stage::MountBoot => mount_request(self.boot_device.as_str(), "/boot", "vfat"),
            Stage::Finished => Request::Finish,
            Stage::Failed => Request::Abort,
        }
    }

    fn require(&mut self, reply: &Reply, next: Stage)
        ensures
            final(self)@ == old(self)@.require(reply@, old(self)@.at(next)),
    {
        self.stage = match reply {
            Reply::Done => next,
            _ => Stage::Failed,
        };
        assert(self@ =~= old(self)@.require(reply@, old(self)@.at(next)));
    }

    fn stage_after_console(&self) -> (stage: Stage)
        ensures
            self@.after_console() == self@.at(stage),
    {
        if self.config.mount_system_filesystems() {
            Stage::MakeSysDir
        } else if self.config.mount_boot_partition() {
            Stage::ProbeFirmware
        } else {
            Stage::Finished
        }
    }

    fn stage_after_devices(&self) -> (stage: Stage)
        ensures
            self@.after_devices() == self@.at(stage),
    {
        if self.config.wire_stdio() {
            Stage::OpenConsoleIn
        } else {
            self.stage_after_console()
        }
    }

    fn stage_after_duplicates(&self, input_done: bool) -> (stage: Stage)
        ensures
            self@.after_duplicates(input_done) == self@.at(stage),
    {
        if !input_done && self.console_in > 2 {
            Stage::CloseConsoleIn
        } else if self.console_out > 2 {
            Stage::CloseConsoleOut
        } else {
            self.stage_after_console()
        }
    }

    fn stage_after_system(&self, firmware: bool) -> (stage: Stage)
        ensures
            self@.after_system(firmware) == self@.at(stage),
    {
        if self.config.mount_boot_partition() && firmware {
            Stage::ReadBootCurrent
        } else {
            Stage::Finished
        }
    }

    fn skip(&mut self, reason: ResolveError)
        ensures
            final(self)@ == old(self)@.skip(reason),
    {
        self.stage = Stage::Finished;
        self.skipped = Some(reason);
        assert(self@ =~= old(self)@.skip(reason));
    }

    fn settle(&mut self, search: Matcher)
        requires
            search.wf(),
        ensures
            final(self)@ == old(self)@.settle(search@),
            old(self)@.settle(search@).wf(),
    {
        if search.exhausted() {
            self.stage = Stage::Finished;
            self.skipped = Some(ResolveError::PartitionNotFound);
        } else {
            match search.resolved() {
                Some(path) => {
                    self.boot_device = path;
                    self.stage = Stage::MakeBootDir;
                },
                None => {
                    self.stage = Stage::Searching;
                },
            }
        }
        self.search = Some(search);
        assert(self@ =~= old(self)@.settle(search@));
    }

    /// Takes the driver's reply to the pending request and moves to the next
    /// state.
    pub fn advance(&mut self, reply: Reply)
        requires
            old(self).wf(),
        ensures
            final(self).wf(),
            final(self)@ == old(self)@.step(reply@),
    {
        match self.stage {
            Stage::MountDevices => {
                let next = self.stage_after_devices();
                self.require(&reply, next);
            },
            Stage::OpenConsoleIn => match reply {
                Reply::Descriptor(fd) if fd >= 0 => {
                    self.console_in = fd;
                    self.stage = Stage::OpenConsoleOut;
                },
                _ => {
                    self.stage = Stage::Failed;
                },
            },
            Stage::OpenConsoleOut => match reply {
                Reply::Descriptor(fd) if fd >= 0 => {
                    self.console_out = fd;
                    self.stage = Stage::DupStdin;
                },
                _ => {
                    self.stage = Stage::Failed;
                },
            },
            Stage::DupStdin => self.require(&reply, Stage::DupStdout),
            Stage::DupStdout => self.require(&reply, Stage::DupStderr),
            Stage::DupStderr => {
                let next = self.stage_after_duplicates(false);
                self.require(&reply, next);
            },
            Stage::CloseConsoleIn => {
                let next = self.stage_after_duplicates(true);
                self.require(&reply, next);
            },
            Stage::CloseConsoleOut => {
                let next = self.stage_after_console();
                self.require(&reply, next);
            },
            Stage::MakeSysDir => self.require(&reply, Stage::MountSys),
            Stage::MountSys => self.require(&reply, Stage::ProbeFirmware),
            Stage::ProbeFirmware => {
                let firmware = match reply {
                    Reply::Exists(present) => present,
                    _ => false,
                };
                self.stage = if self.config.mount_system_filesystems() && firmware {
                    Stage::MountEfiVars
                } else {
                    self.stage_after_system(firmware)
                };
            },
            Stage::MountEfiVars => {
                let next = self.stage_after_system(true);
                self.require(&reply, next);
            },
            Stage::ReadBootCurrent => match reply {
                Reply::Bytes(raw) => match boot_current_index(raw.as_slice()) {
                    Ok(index) => {
                        self.boot_index = index;
                        self.stage = Stage::ReadBootEntry;
                    },
                    Err(reason) => self.skip(reason),
                },
                _ => self.skip(ResolveError::NoActiveBootEntry),
            },
            Stage::ReadBootEntry => match reply {
                Reply::Bytes(raw) => match boot_partition_guid(raw.as_slice()) {
                    Ok(guid) => {
                        let limit = self.config.max_polls();
                        self.settle(Matcher::with_limit(guid, DEFAULT_POLL_MILLIS, limit));
                    },
                    Err(reason) => self.skip(reason),
                },
                _ => self.skip(ResolveError::BootEntryUnreadable),
            },
            Stage::Searching => match self.search.take() {
                Some(search) => {
                    let mut search = search;
                    search.advance(reply);
                    self.settle(search);
                },
                None => {
                    self.stage = Stage::Failed;
                },
            },
            Stage::MakeBootDir => self.require(&reply, Stage::MountBoot),
            Stage::MountBoot => self.require(&reply, Stage::Finished),
            Stage::Finished => {},
            Stage::Failed => {},
        }
        assert(self@ =~= old(self)@.step(reply@));
    }

    /// Takes the driver's reply to the pending request, moves to the next
    /// state, and returns what the driver is to do next.
    pub fn step(&mut self, reply: Reply) -> (request: Request)
        requires
            old(self).wf(),
        ensures
            final(self).wf(),
            final(self)@ == old(self)@.step(reply@),
            request@ == final(self)@.request(),
    {
        self.advance(reply);
        self.request()
    }
}

} // verus!
