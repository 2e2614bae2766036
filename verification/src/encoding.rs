//! The byte layout of device-path nodes, written out, and the proof that
//! decoding reads back what the layout holds.

use crate::device_path::{
    spec_is_end, spec_node_at, spec_node_fits, spec_node_len, spec_nodes, spec_partition_guid,
    spec_select, spec_select_step,
    HardDriveNode, PartitionSignature, PathNode, DEVICE_TYPE_END, DEVICE_TYPE_MEDIA,
    PARTITION_FORMAT_GPT, SIGNATURE_TYPE_GUID, SIGNATURE_TYPE_MBR, SUB_TYPE_END_ENTIRE,
    SUB_TYPE_HARD_DRIVE,
};
use crate::error::ResolveError;
use crate::guid::Guid;
use crate::wire::{spec_u128_le, spec_u16_le, spec_u32_le, spec_u64_le};
use vstd::prelude::*;

verus! {

/// The two bytes of a 16-bit little-endian integer.
pub open spec fn spec_encode_u16(v: int) -> Seq<u8> {
    seq![(v % 0x100) as u8, (v / 0x100) as u8]
}

/// The four bytes of a 32-bit little-endian integer.
pub open spec fn spec_encode_u32(v: int) -> Seq<u8> {
    spec_encode_u16(v % 0x1_0000) + spec_encode_u16(v / 0x1_0000)
}

/// The eight bytes of a 64-bit little-endian integer.
pub open spec fn spec_encode_u64(v: int) -> Seq<u8> {
    spec_encode_u32(v % 0x1_0000_0000) + spec_encode_u32(v / 0x1_0000_0000)
}

/// The sixteen bytes of a 128-bit little-endian integer.
pub open spec fn spec_encode_u128(v: int) -> Seq<u8> {
    spec_encode_u64(v % 0x1_0000_0000_0000_0000) + spec_encode_u64(v / 0x1_0000_0000_0000_0000)
}

/// The sixteen signature bytes of a hard-drive node.
pub open spec fn spec_signature_bytes(signature: PartitionSignature) -> Seq<u8> {
    match signature {
        PartitionSignature::Absent => Seq::new(16, |i: int| 0u8),
        PartitionSignature::Mbr(m) => spec_encode_u32(m as int) + Seq::new(12, |i: int| 0u8),
        PartitionSignature::Guid(g) => spec_encode_u128(g.value as int),
    }
}

/// The signature type tag of a hard-drive node.
pub open spec fn spec_signature_tag(signature: PartitionSignature) -> u8 {
    match signature {
        PartitionSignature::Absent => 0,
        PartitionSignature::Mbr(_) => SIGNATURE_TYPE_MBR,
        PartitionSignature::Guid(_) => SIGNATURE_TYPE_GUID,
    }
}

/// The 42 bytes of a hard-drive node.
#[verifier::opaque]
pub open spec fn spec_encode_hard_drive(node: HardDriveNode) -> Seq<u8> {
    seq![DEVICE_TYPE_MEDIA, SUB_TYPE_HARD_DRIVE, 42u8, 0u8] + spec_encode_u32(
        node.partition_number as int,
    ) + spec_encode_u64(node.partition_start as int) + spec_encode_u64(node.partition_size as int)
        + spec_signature_bytes(node.signature) + seq![
        node.partition_format,
        spec_signature_tag(node.signature),
    ]
}

/// The four bytes of the node that ends a path.
pub open spec fn spec_encode_end() -> Seq<u8> {
    seq![DEVICE_TYPE_END, SUB_TYPE_END_ENTIRE, 4u8, 0u8]
}

/// Reading two encoded bytes gives the integer back.
pub proof fn lemma_read_encoded_u16(s: Seq<u8>, at: int, v: int)
    requires
        0 <= v < 0x1_0000,
        0 <= at,
        at + 2 <= s.len(),
        s.subrange(at, at + 2) == spec_encode_u16(v),
    ensures
        spec_u16_le(s, at) == v,
{
    assert(s.subrange(at, at + 2)[0] == s[at]);
    assert(s.subrange(at, at + 2)[1] == s[at + 1]);
}

/// Reading four encoded bytes gives the integer back.
pub proof fn lemma_read_encoded_u32(s: Seq<u8>, at: int, v: int)
    requires
        0 <= v < 0x1_0000_0000,
        0 <= at,
        at + 4 <= s.len(),
        s.subrange(at, at + 4) == spec_encode_u32(v),
    ensures
        spec_u32_le(s, at) == v,
{
    let whole = s.subrange(at, at + 4);
    assert(s.subrange(at, at + 2) =~= whole.subrange(0, 2));
    assert(s.subrange(at + 2, at + 4) =~= whole.subrange(2, 4));
    assert(whole.subrange(0, 2) =~= spec_encode_u16(v % 0x1_0000));
    assert(whole.subrange(2, 4) =~= spec_encode_u16(v / 0x1_0000));
    lemma_read_encoded_u16(s, at, v % 0x1_0000);
    lemma_read_encoded_u16(s, at + 2, v / 0x1_0000);
}

/// Reading eight encoded bytes gives the integer back.
pub proof fn lemma_read_encoded_u64(s: Seq<u8>, at: int, v: int)
    requires
        0 <= v < 0x1_0000_0000_0000_0000,
        0 <= at,
        at + 8 <= s.len(),
        s.subrange(at, at + 8) == spec_encode_u64(v),
    ensures
        spec_u64_le(s, at) == v,
{
    let whole = s.subrange(at, at + 8);
    assert(s.subrange(at, at + 4) =~= whole.subrange(0, 4));
    assert(s.subrange(at + 4, at + 8) =~= whole.subrange(4, 8));
    assert(whole.subrange(0, 4) =~= spec_encode_u32(v % 0x1_0000_0000));
    assert(whole.subrange(4, 8) =~= spec_encode_u32(v / 0x1_0000_0000));
    lemma_read_encoded_u32(s, at, v % 0x1_0000_0000);
    lemma_read_encoded_u32(s, at + 4, v / 0x1_0000_0000);
}

/// Reading sixteen encoded bytes gives the integer back.
pub proof fn lemma_read_encoded_u128(s: Seq<u8>, at: int, v: int)
    requires
        0 <= v < 0x1_0000_0000_0000_0000_0000_0000_0000_0000,
        0 <= at,
        at + 16 <= s.len(),
        s.subrange(at, at + 16) == spec_encode_u128(v),
    ensures
        spec_u128_le(s, at) == v,
{
    let whole = s.subrange(at, at + 16);
    assert(s.subrange(at, at + 8) =~= whole.subrange(0, 8));
    assert(s.subrange(at + 8, at + 16) =~= whole.subrange(8, 16));
    assert(whole.subrange(0, 8) =~= spec_encode_u64(v % 0x1_0000_0000_0000_0000));
    assert(whole.subrange(8, 16) =~= spec_encode_u64(v / 0x1_0000_0000_0000_0000));
    lemma_read_encoded_u64(s, at, v % 0x1_0000_0000_0000_0000);
    lemma_read_encoded_u64(s, at + 8, v / 0x1_0000_0000_0000_0000);
}

/// Wherever the 42 bytes of a hard-drive node lie in a buffer, a whole node
/// is found there, and it decodes to the node that was written.
pub proof fn lemma_decode_encoded_hard_drive(s: Seq<u8>, at: int, node: HardDriveNode)
    requires
        0 <= at,
        at + 42 <= s.len(),
        s.subrange(at, at + 42) == spec_encode_hard_drive(node),
    ensures
        spec_node_fits(s, at),
        !spec_is_end(s, at),
        spec_node_len(s, at) == 42,
        spec_node_at(s, at) == PathNode::HardDrive(node),
{
    reveal(spec_encode_hard_drive);
    let whole = s.subrange(at, at + 42);
    assert(whole.len() == 42);
    assert(whole[0] == s[at] && whole[1] == s[at + 1] && whole[2] == s[at + 2] && whole[3] == s[at
        + 3]);
    assert(whole[40] == s[at + 40] && whole[41] == s[at + 41]);
    assert(whole[0] == DEVICE_TYPE_MEDIA && whole[1] == SUB_TYPE_HARD_DRIVE && whole[2] == 42
        && whole[3] == 0);
    assert(whole[40] == node.partition_format);
    assert(whole[41] == spec_signature_tag(node.signature));
    assert(s.subrange(at + 4, at + 8) =~= spec_encode_u32(node.partition_number as int)) by {
        assert(s.subrange(at + 4, at + 8) =~= whole.subrange(4, 8));
    }
    assert(s.subrange(at + 8, at + 16) =~= spec_encode_u64(node.partition_start as int)) by {
        assert(s.subrange(at + 8, at + 16) =~= whole.subrange(8, 16));
    }
    assert(s.subrange(at + 16, at + 24) =~= spec_encode_u64(node.partition_size as int)) by {
        assert(s.subrange(at + 16, at + 24) =~= whole.subrange(16, 24));
    }
    assert(s.subrange(at + 24, at + 40) =~= spec_signature_bytes(node.signature)) by {
        assert(s.subrange(at + 24, at + 40) =~= whole.subrange(24, 40));
    }
    lemma_read_encoded_u32(s, at + 4, node.partition_number as int);
    lemma_read_encoded_u64(s, at + 8, node.partition_start as int);
    lemma_read_encoded_u64(s, at + 16, node.partition_size as int);
    match node.signature {
        PartitionSignature::Absent => {},
        PartitionSignature::Mbr(m) => {
            assert(s.subrange(at + 24, at + 28) =~= spec_encode_u32(m as int)) by {
                assert(s.subrange(at + 24, at + 28) =~= s.subrange(at + 24, at + 40).subrange(
                    0,
                    4,
                ));
            }
            lemma_read_encoded_u32(s, at + 24, m as int);
        },
        PartitionSignature::Guid(g) => {
            lemma_read_encoded_u128(s, at + 24, g.value as int);
        },
    }
}

/// A hard-drive node takes 42 bytes.
pub proof fn lemma_encoded_hard_drive_len(node: HardDriveNode)
    ensures
        spec_encode_hard_drive(node).len() == 42,
{
    reveal(spec_encode_hard_drive);
}

/// A path of one node names what that node names.
pub proof fn lemma_select_single(node: PathNode)
    ensures
        spec_select(seq![node]) == spec_select_step(
            Err::<Guid, ResolveError>(ResolveError::NoSignature),
            node,
        ),
{
    reveal_with_fuel(spec_select, 2);
    let nodes = seq![node];
    assert(nodes.drop_last().len() == 0);
    assert(nodes.last() == node);
}

/// A record made of one hard-drive node and the end node decodes to that
/// node alone.
pub proof fn lemma_decode_single_hard_drive(node: HardDriveNode)
    ensures
        spec_nodes(spec_encode_hard_drive(node) + spec_encode_end(), 0) == Some(
            seq![PathNode::HardDrive(node)],
        ),
{
    let s = spec_encode_hard_drive(node) + spec_encode_end();
    lemma_encoded_hard_drive_len(node);
    assert(s.subrange(0, 42) =~= spec_encode_hard_drive(node));
    lemma_decode_encoded_hard_drive(s, 0, node);
    assert(s[42] == DEVICE_TYPE_END && s[43] == SUB_TYPE_END_ENTIRE && s[44] == 4 && s[45] == 0);
    assert(spec_node_fits(s, 42));
    assert(spec_is_end(s, 42));
    assert(spec_nodes(s, 42) == Some(Seq::<PathNode>::empty()));
    assert(seq![PathNode::HardDrive(node)] + Seq::<PathNode>::empty() =~= seq![
        PathNode::HardDrive(node),
    ]);
}

/// Decoding a record whose only node is a GPT hard-drive node with a GUID
/// signature yields exactly that GUID.
pub proof fn lemma_single_gpt_node_yields_its_guid(node: HardDriveNode, guid: Guid)
    requires
        node.partition_format == PARTITION_FORMAT_GPT,
        node.signature == PartitionSignature::Guid(guid),
    ensures
        spec_partition_guid(spec_encode_hard_drive(node) + spec_encode_end()) == Ok::<
            Guid,
            ResolveError,
        >(guid),
{
    lemma_decode_single_hard_drive(node);
    lemma_select_single(PathNode::HardDrive(node));
}

/// Decoding a record whose only node is a hard-drive node of a disk that is
/// not GPT-formatted yields no GUID, whatever signature the node carries.
pub proof fn lemma_single_non_gpt_node_yields_no_guid(node: HardDriveNode)
    requires
        node.partition_format != PARTITION_FORMAT_GPT,
    ensures
        spec_partition_guid(spec_encode_hard_drive(node) + spec_encode_end()) == Err::<
            Guid,
            ResolveError,
        >(ResolveError::NotGpt),
{
    lemma_decode_single_hard_drive(node);
    lemma_select_single(PathNode::HardDrive(node));
}

} // verus!
