use early_init::boot_entry::{
    boot_current_index, boot_current_name, boot_entry_name, boot_partition_guid, description_len,
    device_path_record,
};
use early_init::error::ResolveError;
use early_init::guid::Guid;

const GUID_BYTES: [u8; 16] = [
    0xde, 0xad, 0xbe, 0xef, 0x01, 0x23, 0x45, 0x67, 0x89, 0xab, 0xcd, 0xef, 0x10, 0x32, 0x54, 0x76,
];

fn gpt_path(guid: [u8; 16]) -> Vec<u8> {
    let mut path = vec![0x04, 0x01, 42, 0];
    path.extend_from_slice(&1u32.to_le_bytes());
    path.extend_from_slice(&2048u64.to_le_bytes());
    path.extend_from_slice(&1_048_576u64.to_le_bytes());
    path.extend_from_slice(&guid);
    path.extend([2, 2]);
    path.extend([0x04, 0x04, 8, 0, b'x', 0, 0, 0]);
    path.extend([0x7f, 0xff, 4, 0]);
    path
}

fn load_option(units: &[u16], path: &[u8], declared: u16, optional: &[u8]) -> Vec<u8> {
    let mut entry = vec![1, 0, 0, 0];
    entry.extend_from_slice(&declared.to_le_bytes());
    for unit in units {
        entry.extend_from_slice(&unit.to_le_bytes());
    }
    entry.extend([0, 0]);
    entry.extend_from_slice(path);
    entry.extend_from_slice(optional);
    entry
}

fn utf16(text: &str) -> Vec<u16> {
    text.encode_utf16().collect()
}

#[test]
fn boot_current_is_two_little_endian_bytes() {
    assert_eq!(boot_current_index(&[0x03, 0x00]), Ok(3));
    assert_eq!(boot_current_index(&[0x34, 0x12]), Ok(0x1234));
    assert_eq!(boot_current_index(&[0xff, 0xff]), Ok(0xffff));
    assert_eq!(boot_current_index(&[0x00, 0x01]), Ok(256));
}

#[test]
fn boot_current_of_another_size_names_no_entry() {
    assert_eq!(boot_current_index(&[]), Err(ResolveError::NoActiveBootEntry));
    assert_eq!(boot_current_index(&[3]), Err(ResolveError::NoActiveBootEntry));
    assert_eq!(boot_current_index(&[3, 0, 0]), Err(ResolveError::NoActiveBootEntry));
    assert_eq!(boot_current_index(&[3, 0, 0, 0]), Err(ResolveError::NoActiveBootEntry));
}

#[test]
fn variable_names_are_spelled_as_the_firmware_spells_them() {
    assert_eq!(boot_current_name(), "BootCurrent");
    assert_eq!(boot_entry_name(3), "Boot0003");
    assert_eq!(boot_entry_name(0), "Boot0000");
    assert_eq!(boot_entry_name(0x1a), "Boot001A");
    assert_eq!(boot_entry_name(0xabcd), "BootABCD");
    assert_eq!(boot_entry_name(0xffff), "BootFFFF");
}

#[test]
fn description_ends_at_the_first_zero_code_unit() {
    let mut bytes = Vec::new();
    for unit in utf16("Linux") {
        bytes.extend_from_slice(&unit.to_le_bytes());
    }
    bytes.extend([0, 0, 9, 9]);
    assert_eq!(description_len(&bytes, 0), Some(12));
    assert_eq!(description_len(&bytes, 2), Some(10));
    assert_eq!(description_len(&bytes, 10), Some(2));
    assert_eq!(description_len(&[0, 0], 0), Some(2));
}

#[test]
fn zero_bytes_across_code_units_end_nothing() {
    let bytes = [0x41, 0x00, 0x00, 0x01, 0x42, 0x00, 0x00, 0x00, 0x7f, 0xff];
    assert_eq!(description_len(&bytes, 0), Some(8));
    let bytes = [0x00, 0x01, 0x00, 0x01, 0x00, 0x00];
    assert_eq!(description_len(&bytes, 0), Some(6));
    let bytes = [0x41, 0x00, 0x00, 0x41];
    assert_eq!(description_len(&bytes, 0), None);
}

#[test]
fn description_without_terminator_is_not_measured() {
    assert_eq!(description_len(&[], 0), None);
    assert_eq!(description_len(&[0], 0), None);
    assert_eq!(description_len(&[0x41, 0, 0x42, 0, 0], 0), None);
    assert_eq!(description_len(&[0, 0], 1), None);
    assert_eq!(description_len(&[0, 0], 2), None);
    assert_eq!(description_len(&[0, 0], 3), None);
    assert_eq!(description_len(&[0, 0], usize::MAX), None);
}

#[test]
fn record_resumes_two_bytes_behind_the_terminator() {
    let path = gpt_path(GUID_BYTES);
    let entry = load_option(&[0x0041, 0x0100, 0x0042], &path, path.len() as u16, &[]);
    assert_eq!(&entry[12..14], &[0, 0]);
    assert_eq!(&entry[7..9], &[0, 0]);
    let record = device_path_record(&entry).unwrap();
    assert_eq!(record.as_ptr(), entry[14..].as_ptr());
    assert_eq!(record, &path[..]);
}

#[test]
fn record_is_cut_at_the_declared_length() {
    let path = gpt_path(GUID_BYTES);
    let entry = load_option(&utf16("Debian"), &path, path.len() as u16, &[1, 2, 3, 4, 5]);
    assert_eq!(device_path_record(&entry), Ok(&path[..]));
    let entry = load_option(&utf16("Debian"), &path, 42, &[]);
    assert_eq!(device_path_record(&entry), Ok(&path[..42]));
    let entry = load_option(&[], &path, 0, &[]);
    assert_eq!(device_path_record(&entry), Ok(&path[..0]));
}

#[test]
fn entry_with_bad_framing_is_malformed() {
    let path = gpt_path(GUID_BYTES);
    for cut in 0..6 {
        assert_eq!(device_path_record(&vec![0u8; cut]), Err(ResolveError::MalformedDevicePath));
    }
    let mut unterminated = vec![1, 0, 0, 0, 4, 0];
    unterminated.extend([0x41, 0, 0x42, 0, 0x43]);
    assert_eq!(device_path_record(&unterminated), Err(ResolveError::MalformedDevicePath));
    let overrun = load_option(&utf16("x"), &path, path.len() as u16 + 1, &[]);
    assert_eq!(device_path_record(&overrun), Err(ResolveError::MalformedDevicePath));
    let huge = load_option(&utf16("x"), &path, 0xffff, &[]);
    assert_eq!(boot_partition_guid(&huge), Err(ResolveError::MalformedDevicePath));
}

#[test]
fn guid_is_extracted_from_a_whole_entry() {
    let path = gpt_path(GUID_BYTES);
    let entry = load_option(&utf16("Windows Boot Manager"), &path, path.len() as u16, &[7; 24]);
    assert_eq!(boot_partition_guid(&entry), Ok(Guid::from_bytes(GUID_BYTES)));
}

#[test]
fn path_cut_by_the_declared_length_is_malformed() {
    let path = gpt_path(GUID_BYTES);
    let entry = load_option(&utf16("cut"), &path, path.len() as u16 - 4, &[]);
    assert_eq!(boot_partition_guid(&entry), Err(ResolveError::MalformedDevicePath));
    let entry = load_option(&utf16("cut"), &path, 41, &[]);
    assert_eq!(boot_partition_guid(&entry), Err(ResolveError::MalformedDevicePath));
}

#[test]
fn entry_for_other_media_is_reported_with_its_reason() {
    let mut mbr = gpt_path(GUID_BYTES);
    mbr[40] = 1;
    mbr[41] = 1;
    let entry = load_option(&utf16("legacy"), &mbr, mbr.len() as u16, &[]);
    assert_eq!(boot_partition_guid(&entry), Err(ResolveError::NotGpt));
    let mut unsigned = gpt_path(GUID_BYTES);
    unsigned[41] = 0;
    let entry = load_option(&utf16("unsigned"), &unsigned, unsigned.len() as u16, &[]);
    assert_eq!(boot_partition_guid(&entry), Err(ResolveError::NoSignature));
    let network = [0x03, 0x0b, 8, 0, 1, 2, 3, 4, 0x7f, 0xff, 4, 0];
    let entry = load_option(&utf16("pxe"), &network, 12, &[]);
    assert_eq!(boot_partition_guid(&entry), Err(ResolveError::NoSignature));
}
