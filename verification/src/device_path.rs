//! Decoding of UEFI device-path records.
//!
//! A record is a run of nodes. Every node starts with a four-byte header:
//! its type, its sub-type and its total length as a 16-bit little-endian
//! integer. The record ends with a node of type end-of-path and sub-type
//! end-entire. Of the many node kinds only the hard-drive media node is
//! decoded further; it names a partition and carries its signature.

use crate::error::ResolveError;
use crate::guid::Guid;
use crate::wire::{
    read_u16_le, read_u32_le, read_u64_le, spec_u128_le, spec_u16_le, spec_u32_le, spec_u64_le,
};
use vstd::prelude::*;

verus! {

/// Node type of media device paths.
pub const DEVICE_TYPE_MEDIA: u8 = 0x04;

/// Node type of the nodes that end an instance or the whole path.
pub const DEVICE_TYPE_END: u8 = 0x7f;

/// Sub-type of the hard-drive node among the media nodes.
pub const SUB_TYPE_HARD_DRIVE: u8 = 0x01;

/// Sub-type of the node that ends the whole path.
pub const SUB_TYPE_END_ENTIRE: u8 = 0xff;

/// Length of the header every node starts with.
pub const NODE_HEADER_LEN: usize = 4;

/// Total length of a hard-drive node.
pub const HARD_DRIVE_NODE_LEN: usize = 42;

/// Partition format tag of a disk with a legacy master boot record.
pub const PARTITION_FORMAT_MBR: u8 = 0x01;

/// Partition format tag of a disk with a GUID partition table.
pub const PARTITION_FORMAT_GPT: u8 = 0x02;

/// Signature type tag of a 32-bit MBR signature.
pub const SIGNATURE_TYPE_MBR: u8 = 0x01;

/// Signature type tag of a GUID signature.
pub const SIGNATURE_TYPE_GUID: u8 = 0x02;

/// What identifies the partition a hard-drive node points at.
#[derive(Clone, Copy, Debug, PartialEq, Eq, Structural)]
pub enum PartitionSignature {
    /// The node carries no signature.
    Absent,
    /// The 32-bit signature of an MBR disk.
    Mbr(u32),
    /// The unique GUID of a GPT partition.
    Guid(Guid),
}

/// The payload of a hard-drive media node.
#[derive(Clone, Copy, Debug, PartialEq, Eq, Structural)]
pub struct HardDriveNode {
    /// Number of the partition on its disk, counted from 1.
    pub partition_number: u32,
    /// First block of the partition.
    pub partition_start: u64,
    /// Size of the partition in blocks.
    pub partition_size: u64,
    /// Format of the partition table the partition belongs to.
    pub partition_format: u8,
    /// Signature of the partition.
    pub signature: PartitionSignature,
}

/// One node of a device path, other than the one that ends it.
#[derive(Clone, Copy, Debug, PartialEq, Eq, Structural)]
pub enum PathNode {
    /// A hard-drive media node.
    HardDrive(HardDriveNode),
    /// A node of any other kind, known by its header alone.
    Other { device_type: u8, sub_type: u8, length: u16 },
}

/// The total length that the node at `at` declares.
pub open spec fn spec_node_len(s: Seq<u8>, at: int) -> int {
    spec_u16_le(s, at + 2)
}

/// Whether a whole node lies at `at`: its header is inside the record, and
/// so is the length it declares, which covers at least the header.
pub open spec fn spec_node_fits(s: Seq<u8>, at: int) -> bool {
    &&& 0 <= at
    &&& at + NODE_HEADER_LEN <= s.len()
    &&& NODE_HEADER_LEN <= spec_node_len(s, at)
    &&& at + spec_node_len(s, at) <= s.len()
}

/// Whether the node at `at` ends the whole path.
pub open spec fn spec_is_end(s: Seq<u8>, at: int) -> bool {
    s[at] == DEVICE_TYPE_END && s[at + 1] == SUB_TYPE_END_ENTIRE
}

/// Whether the node at `at` is a hard-drive media node.
pub open spec fn spec_is_hard_drive(s: Seq<u8>, at: int) -> bool {
    &&& s[at] == DEVICE_TYPE_MEDIA
    &&& s[at + 1] == SUB_TYPE_HARD_DRIVE
    &&& spec_node_len(s, at) == HARD_DRIVE_NODE_LEN
}

/// The signature of the hard-drive node at `at`: sixteen bytes at offset 24,
/// read according to the type tag at offset 41.
pub open spec fn spec_signature(s: Seq<u8>, at: int) -> PartitionSignature {
    if s[at + 41] == SIGNATURE_TYPE_MBR {
        PartitionSignature::Mbr(spec_u32_le(s, at + 24) as u32)
    } else if s[at + 41] == SIGNATURE_TYPE_GUID {
        PartitionSignature::Guid(Guid { value: spec_u128_le(s, at + 24) as u128 })
    } else {
        PartitionSignature::Absent
    }
}

/// The payload of the hard-drive node at `at`.
pub open spec fn spec_hard_drive(s: Seq<u8>, at: int) -> HardDriveNode {
    HardDriveNode {
        partition_number: spec_u32_le(s, at + 4) as u32,
        partition_start: spec_u64_le(s, at + 8) as u64,
        partition_size: spec_u64_le(s, at + 16) as u64,
        partition_format: s[at + 40],
        signature: spec_signature(s, at),
    }
}

/// The node at `at`. A node with the type of a hard-drive node but another
/// length is not taken for one.
pub open spec fn spec_node_at(s: Seq<u8>, at: int) -> PathNode {
    if spec_is_hard_drive(s, at) {
        PathNode::HardDrive(spec_hard_drive(s, at))
    } else {
        PathNode::Other {
            device_type: s[at],
            sub_type: s[at + 1],
            length: spec_node_len(s, at) as u16,
        }
    }
}

/// The nodes of the record from offset `at` up to the end-entire node, or
/// `None` where a node does not fit into the record before that node is met.
pub open spec fn spec_nodes(s: Seq<u8>, at: int) -> Option<Seq<PathNode>>
    decreases s.len() - at,
{
    if !spec_node_fits(s, at) {
        None
    } else if spec_is_end(s, at) {
        Some(Seq::empty())
    } else {
        match spec_nodes(s, at + spec_node_len(s, at)) {
            Some(rest) => Some(seq![spec_node_at(s, at)] + rest),
            None => None,
        }
    }
}

/// A device-path record being read: a borrowed buffer and the offset of the
/// next node in it. The bytes are neither owned nor copied.
pub struct DevicePathRecord<'a> {
    bytes: &'a [u8],
    offset: usize,
}

impl<'a> DevicePathRecord<'a> {
    /// The bytes of the record.
    pub closed spec fn bytes(&self) -> Seq<u8> {
        self.bytes@
    }

    /// The offset of the node that is read next.
    pub closed spec fn offset(&self) -> int {
        self.offset as int
    }

    /// Starts reading `bytes` at its first node.
    pub fn new(bytes: &'a [u8]) -> (record: Self)
        ensures
            record.bytes() == bytes@,
            record.offset() == 0,
    {
        DevicePathRecord { bytes, offset: 0 }
    }

    /// Reads the next node and moves past it.
    ///
    /// Returns `Ok(None)` at the end-entire node, and stays there. Fails,
    /// without moving, where no whole node lies at the current offset: the
    /// record is never read past its end.
    pub fn next_node(&mut self) -> (r: Result<Option<PathNode>, ResolveError>)
        ensures
            final(self).bytes() == old(self).bytes(),
            !spec_node_fits(old(self).bytes(), old(self).offset()) ==> {
                &&& r == Err::<Option<PathNode>, ResolveError>(ResolveError::MalformedDevicePath)
                &&& final(self).offset() == old(self).offset()
            },
            spec_node_fits(old(self).bytes(), old(self).offset()) && spec_is_end(
                old(self).bytes(),
                old(self).offset(),
            ) ==> {
                &&& r == Ok::<Option<PathNode>, ResolveError>(None)
                &&& final(self).offset() == old(self).offset()
            },
            spec_node_fits(old(self).bytes(), old(self).offset()) && !spec_is_end(
                old(self).bytes(),
                old(self).offset(),
            ) ==> {
                &&& r == Ok::<Option<PathNode>, ResolveError>(
                    Some(spec_node_at(old(self).bytes(), old(self).offset())),
                )
                &&& final(self).offset() == old(self).offset() + spec_node_len(
                    old(self).bytes(),
                    old(self).offset(),
                )
            },
    {
        let bytes: &[u8] = self.bytes;
        let at: usize = self.offset;
        let total: usize = bytes.len();
        if total < NODE_HEADER_LEN || at > total - NODE_HEADER_LEN {
            return Err(ResolveError::MalformedDevicePath);
        }
        let length: u16 = read_u16_le(bytes, at + 2);
        if (length as usize) < NODE_HEADER_LEN || length as usize > total - at {
            return Err(ResolveError::MalformedDevicePath);
        }
        let device_type: u8 = bytes[at];
        let sub_type: u8 = bytes[at + 1];
        if device_type == DEVICE_TYPE_END && sub_type == SUB_TYPE_END_ENTIRE {
            return Ok(None);
        }
        self.offset = at + length as usize;
        if device_type == DEVICE_TYPE_MEDIA && sub_type == SUB_TYPE_HARD_DRIVE && length as usize
            == HARD_DRIVE_NODE_LEN {
            Ok(Some(PathNode::HardDrive(read_hard_drive(bytes, at))))
        } else {
            Ok(Some(PathNode::Other { device_type, sub_type, length }))
        }
    }
}

/// Decodes the payload of the hard-drive node that starts at `at`.
pub fn read_hard_drive(bytes: &[u8], at: usize) -> (node: HardDriveNode)
    requires
        at + HARD_DRIVE_NODE_LEN <= bytes.len(),
    ensures
        node == spec_hard_drive(bytes@, at as int),
{
    let signature_type: u8 = bytes[at + 41];
    let signature = if signature_type == SIGNATURE_TYPE_MBR {
        PartitionSignature::Mbr(read_u32_le(bytes, at + 24))
    } else if signature_type == SIGNATURE_TYPE_GUID {
        PartitionSignature::Guid(Guid::read(bytes, at + 24))
    } else {
        PartitionSignature::Absent
    };
    HardDriveNode {
        partition_number: read_u32_le(bytes, at + 4),
        partition_start: read_u64_le(bytes, at + 8),
        partition_size: read_u64_le(bytes, at + 16),
        partition_format: bytes[at + 40],
        signature,
    }
}

/// `prefix` followed by `rest`, where there is a rest.
pub open spec fn spec_prepend(prefix: Seq<PathNode>, rest: Option<Seq<PathNode>>) -> Option<
    Seq<PathNode>,
> {
    match rest {
        Some(nodes) => Some(prefix + nodes),
        None => None,
    }
}

/// Decodes every node of the record `bytes`, in order, up to the end-entire
/// node. Fails where the record is cut short or a node's declared length
/// overruns it.
pub fn decode_nodes(bytes: &[u8]) -> (r: Result<Vec<PathNode>, ResolveError>)
    ensures
        match r {
            Ok(nodes) => spec_nodes(bytes@, 0) == Some(nodes@),
            Err(e) => e == ResolveError::MalformedDevicePath && spec_nodes(bytes@, 0) is None,
        },
{
    let mut record = DevicePathRecord::new(bytes);
    let mut nodes: Vec<PathNode> = Vec::new();
    loop
        invariant
            record.bytes() == bytes@,
            0 <= record.offset() <= bytes@.len(),
            spec_nodes(bytes@, 0) == spec_prepend(nodes@, spec_nodes(bytes@, record.offset())),
        decreases bytes@.len() - record.offset(),
    {
        let ghost before = record.offset();
        let ghost seen = nodes@;
        match record.next_node() {
            Err(e) => {
                return Err(e);
            },
            Ok(None) => {
                assert(seen + Seq::<PathNode>::empty() =~= seen);
                return Ok(nodes);
            },
            Ok(Some(node)) => {
                nodes.push(node);
                proof {
                    let rest = spec_nodes(bytes@, record.offset());
                    if rest is Some {
                        assert((seen + seq![node]) + rest->0 =~= seen + (seq![node] + rest->0));
                    }
                }
            },
        }
    }
}

/// Whether `node` names a GPT partition by its GUID.
pub open spec fn spec_names_partition(node: PathNode) -> bool {
    &&& node is HardDrive
    &&& node->HardDrive_0.partition_format == PARTITION_FORMAT_GPT
    &&& node->HardDrive_0.signature is Guid
}

/// What is known of the partition after one more node, given what was known
/// before it. A GPT hard-drive node with a GUID signature settles the answer;
/// any other hard-drive node only replaces the reason for having none.
pub open spec fn spec_select_step(prev: Result<Guid, ResolveError>, node: PathNode) -> Result<
    Guid,
    ResolveError,
> {
    if spec_names_partition(node) {
        Ok(node->HardDrive_0.signature->Guid_0)
    } else if prev is Ok || !(node is HardDrive) {
        prev
    } else if node->HardDrive_0.partition_format != PARTITION_FORMAT_GPT {
        Err(ResolveError::NotGpt)
    } else {
        Err(ResolveError::NoSignature)
    }
}

/// The partition that a path names: the GUID of its last GPT hard-drive node
/// that has one. Without such a node the reason is taken from the last
/// hard-drive node, if any.
pub open spec fn spec_select(nodes: Seq<PathNode>) -> Result<Guid, ResolveError>
    decreases nodes.len(),
{
    if nodes.len() == 0 {
        Err(ResolveError::NoSignature)
    } else {
        spec_select_step(spec_select(nodes.drop_last()), nodes.last())
    }
}

/// Picks the partition GUID out of decoded nodes.
pub fn select_guid(nodes: &Vec<PathNode>) -> (r: Result<Guid, ResolveError>)
    ensures
        r == spec_select(nodes@),
{
    let mut found: Result<Guid, ResolveError> = Err(ResolveError::NoSignature);
    let mut i: usize = 0;
    while i < nodes.len()
        invariant
            i <= nodes@.len(),
            found == spec_select(nodes@.take(i as int)),
        decreases nodes@.len() - i,
    {
        proof {
            assert(nodes@.take(i + 1).drop_last() =~= nodes@.take(i as int));
        }
        match nodes[i] {
            PathNode::HardDrive(drive) => {
                if drive.partition_format == PARTITION_FORMAT_GPT {
                    match drive.signature {
                        PartitionSignature::Guid(guid) => {
                            found = Ok(guid);
                        },
                        _ => {
                            if found.is_err() {
                                found = Err(ResolveError::NoSignature);
                            }
                        },
                    }
                } else if found.is_err() {
                    found = Err(ResolveError::NotGpt);
                }
            },
            PathNode::Other { .. } => {},
        }
        i += 1;
    }
    proof {
        assert(nodes@.take(nodes@.len() as int) =~= nodes@);
    }
    found
}

/// The partition GUID that the device-path record `s` names.
pub open spec fn spec_partition_guid(s: Seq<u8>) -> Result<Guid, ResolveError> {
    match spec_nodes(s, 0) {
        Some(nodes) => spec_select(nodes),
        None => Err(ResolveError::MalformedDevicePath),
    }
}

/// Extracts the GUID of the GPT partition that a device-path record names:
/// that of its last hard-drive node which is of a GPT disk and carries one.
///
/// Fails with `MalformedDevicePath` where the record does not decode. Where
/// it decodes but holds no such node, fails with `NotGpt` if its last
/// hard-drive node belongs to a disk of another format, and with
/// `NoSignature` if it has no hard-drive node or the last one carries no
/// GUID.
pub fn partition_guid(bytes: &[u8]) -> (r: Result<Guid, ResolveError>)
    ensures
        r == spec_partition_guid(bytes@),
{
    match decode_nodes(bytes) {
        Ok(nodes) => select_guid(&nodes),
        Err(e) => Err(e),
    }
}

/// A path without a node that names a partition yields no GUID.
pub proof fn lemma_select_without_partition_node(nodes: Seq<PathNode>)
    requires
        forall|j: int| 0 <= j < nodes.len() ==> !spec_names_partition(#[trigger] nodes[j]),
    ensures
        spec_select(nodes) is Err,
    decreases nodes.len(),
{
    if nodes.len() > 0 {
        let front = nodes.drop_last();
        assert forall|j: int| 0 <= j < front.len() implies !spec_names_partition(
            #[trigger] front[j],
        ) by {
            assert(front[j] == nodes[j]);
        }
        lemma_select_without_partition_node(front);
        assert(!spec_names_partition(nodes[nodes.len() - 1]));
    }
}

/// Of the nodes that name a partition, the last one decides: its GUID is
/// what the path yields, whatever nodes stand before it or behind it.
pub proof fn lemma_select_takes_last_partition_node(nodes: Seq<PathNode>, i: int)
    requires
        0 <= i < nodes.len(),
        spec_names_partition(nodes[i]),
        forall|j: int| i < j < nodes.len() ==> !spec_names_partition(#[trigger] nodes[j]),
    ensures
        spec_select(nodes) == Ok::<Guid, ResolveError>(nodes[i]->HardDrive_0.signature->Guid_0),
    decreases nodes.len(),
{
    let front = nodes.drop_last();
    if i < nodes.len() - 1 {
        assert(front[i] == nodes[i]);
        assert forall|j: int| i < j < front.len() implies !spec_names_partition(
            #[trigger] front[j],
        ) by {
            assert(front[j] == nodes[j]);
        }
        lemma_select_takes_last_partition_node(front, i);
        assert(!spec_names_partition(nodes[nodes.len() - 1]));
    }
}

/// Where a path holds exactly one hard-drive node, that node alone decides:
/// the path yields its GUID if the node is of a GPT disk and has one, and no
/// GUID otherwise, as a path of that one node would.
pub proof fn lemma_select_single_hard_drive(nodes: Seq<PathNode>, i: int)
    requires
        0 <= i < nodes.len(),
        nodes[i] is HardDrive,
        forall|j: int| 0 <= j < nodes.len() && j != i ==> !(#[trigger] nodes[j] is HardDrive),
    ensures
        spec_select(nodes) == spec_select_step(
            Err::<Guid, ResolveError>(ResolveError::NoSignature),
            nodes[i],
        ),
    decreases nodes.len(),
{
    let front = nodes.drop_last();
    if i < nodes.len() - 1 {
        assert(front[i] == nodes[i]);
        assert forall|j: int| 0 <= j < front.len() && j != i implies !(
        #[trigger] front[j] is HardDrive) by {
            assert(front[j] == nodes[j]);
        }
        lemma_select_single_hard_drive(front, i);
        assert(!(nodes[nodes.len() - 1] is HardDrive));
    } else {
        assert forall|j: int| 0 <= j < front.len() implies !(#[trigger] front[j] is HardDrive) by {
            assert(front[j] == nodes[j]);
        }
        lemma_select_without_hard_drive(front);
    }
}

/// A path without any hard-drive node yields no GUID, for want of a
/// signature.
pub proof fn lemma_select_without_hard_drive(nodes: Seq<PathNode>)
    requires
        forall|j: int| 0 <= j < nodes.len() ==> !(#[trigger] nodes[j] is HardDrive),
    ensures
        spec_select(nodes) == Err::<Guid, ResolveError>(ResolveError::NoSignature),
    decreases nodes.len(),
{
    if nodes.len() > 0 {
        let front = nodes.drop_last();
        assert forall|j: int| 0 <= j < front.len() implies !(#[trigger] front[j] is HardDrive) by {
            assert(front[j] == nodes[j]);
        }
        lemma_select_without_hard_drive(front);
        assert(!(nodes[nodes.len() - 1] is HardDrive));
    }
}

} // verus!
