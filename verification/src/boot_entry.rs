//! The firmware variables that describe the active boot entry.
//!
//! `BootCurrent` holds the number of the entry the firmware booted, as two
//! little-endian bytes. The entry itself lies in the variable `Boot` followed
//! by that number in four hexadecimal digits. Its value starts with a 32-bit
//! attribute field and the 16-bit length of the device path, goes on with a
//! description in UTF-16 that ends at the first zero code unit, and holds the
//! device-path record right after that.

use crate::device_path::{partition_guid, spec_partition_guid};
use crate::error::ResolveError;
use crate::guid::Guid;
use crate::text::{push_hex4, spec_hex4};
use crate::wire::{read_u16_le, spec_u16_le};
use vstd::prelude::*;
use vstd::slice::slice_subrange;
use vstd::string::*;

verus! {

/// Length of the fixed fields a boot entry starts with.
pub const LOAD_OPTION_HEADER_LEN: usize = 6;

/// Offset of the device-path length among those fields.
pub const PATH_LENGTH_OFFSET: usize = 4;

/// The number of the active boot entry that the value of `BootCurrent` holds.
pub open spec fn spec_boot_current_index(raw: Seq<u8>) -> Result<u16, ResolveError> {
    if raw.len() == 2 {
        Ok(spec_u16_le(raw, 0) as u16)
    } else {
        Err(ResolveError::NoActiveBootEntry)
    }
}

/// Decodes the value of `BootCurrent`. A value that is not two bytes long
/// names no entry.
pub fn boot_current_index(raw: &[u8]) -> (r: Result<u16, ResolveError>)
    ensures
        r == spec_boot_current_index(raw@),
{
    if raw.len() == 2 {
        Ok(read_u16_le(raw, 0))
    } else {
        Err(ResolveError::NoActiveBootEntry)
    }
}

/// The name of the variable that names the active boot entry.
pub fn boot_current_name() -> (name: String)
    ensures
        name@ == "BootCurrent"@,
{
    String::from_str("BootCurrent")
}

/// The name of the variable that holds boot entry `index`.
pub open spec fn spec_boot_entry_name(index: u16) -> Seq<char> {
    "Boot"@ + spec_hex4(index as int)
}

/// Builds the name of the variable that holds boot entry `index`: entry 3
/// lies in `Boot0003`, entry 26 in `Boot001A`.
pub fn boot_entry_name(index: u16) -> (name: String)
    ensures
        name@ == spec_boot_entry_name(index),
{
    let mut name = String::from_str("Boot");
    push_hex4(&mut name, index);
    name
}

/// The number of bytes that the UTF-16 string at `start` takes up to and
/// including its first zero code unit, or `None` where the buffer ends
/// before one. Code units are read pair by pair from `start`: a zero byte
/// pair that straddles two code units ends nothing.
pub open spec fn spec_description_len(s: Seq<u8>, start: int) -> Option<int>
    decreases s.len() - start,
{
    if start < 0 || start + 2 > s.len() {
        None
    } else if spec_u16_le(s, start) == 0 {
        Some(2)
    } else {
        match spec_description_len(s, start + 2) {
            Some(n) => Some(n + 2),
            None => None,
        }
    }
}

/// Measures the zero-terminated UTF-16 string that starts at `start`,
/// terminator included, so that what follows it can be found.
pub fn description_len(bytes: &[u8], start: usize) -> (r: Option<usize>)
    ensures
        match r {
            Some(n) => spec_description_len(bytes@, start as int) == Some(n as int) && start + n
                <= bytes@.len(),
            None => spec_description_len(bytes@, start as int) is None,
        },
{
    let total: usize = bytes.len();
    if start > total {
        return None;
    }
    let mut at: usize = start;
    while total - at >= 2
        invariant
            total == bytes@.len(),
            start <= at <= total,
            spec_description_len(bytes@, start as int) == match spec_description_len(
                bytes@,
                at as int,
            ) {
                Some(n) => Some(n + (at - start)),
                None => None,
            },
        decreases total - at,
    {
        if bytes[at] == 0 && bytes[at + 1] == 0 {
            return Some(at - start + 2);
        }
        at += 2;
    }
    None
}

/// Code unit `k` of the UTF-16 string that starts at `start`.
pub open spec fn spec_code_unit(s: Seq<u8>, start: int, k: int) -> int {
    spec_u16_le(s, start + 2 * k)
}

/// Whether code unit `k` of the string at `start` is its terminator: it lies
/// inside the buffer, it is zero, and no code unit before it is.
pub open spec fn spec_terminator_at(s: Seq<u8>, start: int, k: int) -> bool {
    &&& 0 <= k
    &&& 0 <= start
    &&& start + 2 * k + 2 <= s.len()
    &&& spec_code_unit(s, start, k) == 0
    &&& forall|j: int| 0 <= j < k ==> #[trigger] spec_code_unit(s, start, j) != 0
}

/// A string whose terminator is code unit `k` takes `2 * k + 2` bytes: what
/// follows it starts right behind the terminator, whatever zero bytes lie
/// inside the code units before.
pub proof fn lemma_description_ends_behind_terminator(s: Seq<u8>, start: int, k: int)
    requires
        spec_terminator_at(s, start, k),
    ensures
        spec_description_len(s, start) == Some(2 * k + 2),
    decreases k,
{
    if k > 0 {
        assert(spec_code_unit(s, start, 0) != 0);
        assert forall|j: int| 0 <= j < k - 1 implies #[trigger] spec_code_unit(s, start + 2, j)
            != 0 by {
            assert(spec_code_unit(s, start, j + 1) != 0);
        }
        lemma_description_ends_behind_terminator(s, start + 2, k - 1);
    }
}

/// A string that was measured has its terminator where the measure ends.
pub proof fn lemma_description_len_is_terminator(s: Seq<u8>, start: int)
    requires
        spec_description_len(s, start) is Some,
    ensures
        spec_description_len(s, start)->0 >= 2,
        spec_description_len(s, start)->0 % 2 == 0,
        spec_terminator_at(s, start, spec_description_len(s, start)->0 / 2 - 1),
    decreases s.len() - start,
{
    if spec_u16_le(s, start) != 0 {
        lemma_description_len_is_terminator(s, start + 2);
        let k = spec_description_len(s, start)->0 / 2 - 1;
        assert forall|j: int| 0 <= j < k implies #[trigger] spec_code_unit(s, start, j) != 0 by {
            if j > 0 {
                assert(spec_code_unit(s, start + 2, j - 1) != 0);
            }
        }
    }
}

/// The device-path record inside the value of a boot entry: the bytes
/// behind the description, as many as the length field declares.
pub open spec fn spec_device_path_record(s: Seq<u8>) -> Result<Seq<u8>, ResolveError> {
    if s.len() < LOAD_OPTION_HEADER_LEN {
        Err(ResolveError::MalformedDevicePath)
    } else {
        match spec_description_len(s, LOAD_OPTION_HEADER_LEN as int) {
            Some(n) => {
                let start = LOAD_OPTION_HEADER_LEN + n;
                let end = start + spec_u16_le(s, PATH_LENGTH_OFFSET as int);
                if end <= s.len() {
                    Ok(s.subrange(start, end))
                } else {
                    Err(ResolveError::MalformedDevicePath)
                }
            },
            None => Err(ResolveError::MalformedDevicePath),
        }
    }
}

/// Locates the device-path record inside the value of a boot entry.
///
/// The record is a view into `entry`. It is cut at the declared length, so
/// that decoding it cannot read what lies behind. Fails where the fixed
/// fields are cut short, the description has no terminator, or the declared
/// length overruns the value.
pub fn device_path_record(entry: &[u8]) -> (r: Result<&[u8], ResolveError>)
    ensures
        match r {
            Ok(record) => spec_device_path_record(entry@) == Ok::<Seq<u8>, ResolveError>(record@),
            Err(e) => spec_device_path_record(entry@) == Err::<Seq<u8>, ResolveError>(e),
        },
{
    let total: usize = entry.len();
    if total < LOAD_OPTION_HEADER_LEN {
        return Err(ResolveError::MalformedDevicePath);
    }
    let path_len: usize = read_u16_le(entry, PATH_LENGTH_OFFSET) as usize;
    match description_len(entry, LOAD_OPTION_HEADER_LEN) {
        Some(n) => {
            let start: usize = LOAD_OPTION_HEADER_LEN + n;
            if path_len <= total - start {
                Ok(slice_subrange(entry, start, start + path_len))
            } else {
                Err(ResolveError::MalformedDevicePath)
            }
        },
        None => Err(ResolveError::MalformedDevicePath),
    }
}

/// The GUID of the partition that the value of a boot entry points at.
pub open spec fn spec_boot_partition_guid(s: Seq<u8>) -> Result<Guid, ResolveError> {
    match spec_device_path_record(s) {
        Ok(record) => spec_partition_guid(record),
        Err(e) => Err(e),
    }
}

/// Extracts the GUID of the GPT partition that a boot entry points at, from
/// the raw value of the entry's variable.
pub fn boot_partition_guid(entry: &[u8]) -> (r: Result<Guid, ResolveError>)
    ensures
        r == spec_boot_partition_guid(entry@),
{
    match device_path_record(entry) {
        Ok(record) => partition_guid(record),
        Err(e) => Err(e),
    }
}

} // verus!
