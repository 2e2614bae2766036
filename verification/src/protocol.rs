//! What the library asks of its driver and what the driver answers.
//!
//! The library decides; the driver acts. Each step of the boot sequence hands
//! the driver one `Request`. The driver carries it out against the real
//! system and reports the outcome as a `Reply`, which selects the next step.

use crate::guid::Guid;
use vstd::prelude::*;

verus! {

/// One entry of a disk's partition table.
#[derive(Clone, Copy, Debug, PartialEq, Eq, Structural)]
pub struct PartitionEntry {
    /// Number of the partition on its disk.
    pub index: u32,
    /// Unique GUID of the partition.
    pub guid: Guid,
}

/// An operation for the driver to perform.
#[derive(Clone, Debug, PartialEq, Eq)]
pub enum Request {
    /// Mount `source` at `target` as a filesystem of type `fstype`.
    Mount { source: String, target: String, fstype: String, flags: u64, data: String },
    /// Open the file at `path`, for writing or else for reading, and reply
    /// with its descriptor.
    Open { path: String, write: bool },
    /// Make descriptor `to` a duplicate of descriptor `from`.
    Duplicate { from: i32, to: i32 },
    /// Close descriptor `fd`.
    Close { fd: i32 },
    /// Create the directory `path` with permission bits `mode`.
    MakeDir { path: String, mode: u32 },
    /// Reply whether anything exists at `path`.
    ProbePath { path: String },
    /// Read the firmware variable `name` and reply with its value.
    ReadVariable { name: String },
    /// List the entries of the directory `path` and reply with their names.
    ListDirectory { path: String },
    /// Open the device node `path` read-only as a GPT disk and reply with
    /// its partition entries.
    OpenDisk { path: String },
    /// Wait for `millis` milliseconds.
    Sleep { millis: u64 },
    /// The sequence is complete: there is nothing left to do.
    Finish,
    /// The last request failed and the sequence cannot go on.
    Abort,
}

/// The mathematical content of a `Request`.
pub enum RequestView {
    Mount { source: Seq<char>, target: Seq<char>, fstype: Seq<char>, flags: u64, data: Seq<char> },
    Open { path: Seq<char>, write: bool },
    Duplicate { from: i32, to: i32 },
    Close { fd: i32 },
    MakeDir { path: Seq<char>, mode: u32 },
    ProbePath { path: Seq<char> },
    ReadVariable { name: Seq<char> },
    ListDirectory { path: Seq<char> },
    OpenDisk { path: Seq<char> },
    Sleep { millis: u64 },
    Finish,
    Abort,
}

impl View for Request {
    type V = RequestView;

    open spec fn view(&self) -> RequestView {
        match *self {
            Request::Mount { source, target, fstype, flags, data } => RequestView::Mount {
                source: source@,
                target: target@,
                fstype: fstype@,
                flags,
                data: data@,
            },
            Request::Open { path, write } => RequestView::Open { path: path@, write },
            Request::Duplicate { from, to } => RequestView::Duplicate { from, to },
            Request::Close { fd } => RequestView::Close { fd },
            Request::MakeDir { path, mode } => RequestView::MakeDir { path: path@, mode },
            Request::ProbePath { path } => RequestView::ProbePath { path: path@ },
            Request::ReadVariable { name } => RequestView::ReadVariable { name: name@ },
            Request::ListDirectory { path } => RequestView::ListDirectory { path: path@ },
            Request::OpenDisk { path } => RequestView::OpenDisk { path: path@ },
            Request::Sleep { millis } => RequestView::Sleep { millis },
            Request::Finish => RequestView::Finish,
            Request::Abort => RequestView::Abort,
        }
    }
}

/// The outcome of a request.
#[derive(Clone, Debug, PartialEq, Eq)]
pub enum Reply {
    /// The operation was carried out.
    Done,
    /// The operation failed.
    Failed,
    /// The file was opened under this descriptor.
    Descriptor(i32),
    /// Whether the probed path exists.
    Exists(bool),
    /// The value of the firmware variable.
    Bytes(Vec<u8>),
    /// The names of the directory's entries.
    Names(Vec<String>),
    /// The entries of the disk's partition table.
    Partitions(Vec<PartitionEntry>),
}

/// The mathematical content of a `Reply`.
pub enum ReplyView {
    Done,
    Failed,
    Descriptor(i32),
    Exists(bool),
    Bytes(Seq<u8>),
    Names(Seq<Seq<char>>),
    Partitions(Seq<PartitionEntry>),
}

/// The texts that a run of strings holds.
pub open spec fn spec_texts(names: Seq<String>) -> Seq<Seq<char>> {
    Seq::new(names.len(), |i: int| names[i]@)
}

impl View for Reply {
    type V = ReplyView;

    open spec fn view(&self) -> ReplyView {
        match *self {
            Reply::Done => ReplyView::Done,
            Reply::Failed => ReplyView::Failed,
            Reply::Descriptor(fd) => ReplyView::Descriptor(fd),
            Reply::Exists(present) => ReplyView::Exists(present),
            Reply::Bytes(bytes) => ReplyView::Bytes(bytes@),
            Reply::Names(names) => ReplyView::Names(spec_texts(names@)),
            Reply::Partitions(entries) => ReplyView::Partitions(entries@),
        }
    }
}

} // verus!
