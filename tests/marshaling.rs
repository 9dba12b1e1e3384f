use projfs::flags::{
    PRJ_CB_DATA_FLAG_ENUM_RESTART_SCAN, PRJ_CB_DATA_FLAG_ENUM_RETURN_SINGLE_ENTRY,
};
use projfs::status::{
    result_to_raw, ERROR_FILE_NOT_FOUND, ERROR_INSUFFICIENT_BUFFER, ERROR_IO_PENDING,
    GENERIC_FAILURE, S_OK,
};
use projfs::wide::{encode_wide, wide_len};
use projfs::{
    guid_from_raw, guid_to_raw, io_error_to_raw, CallbackDataFlags, FileBasicInfo, IoError,
    RawGuid, RawPath,
};

#[test]
fn flags_accept_known_bits() {
    for bits in 0u32..4 {
        let f = CallbackDataFlags::from_bits(bits).expect("known bits");
        assert_eq!(f.bits(), bits);
        assert_eq!(f.restart_scan(), bits & 1 != 0);
        assert_eq!(f.return_single_entry(), bits & 2 != 0);
    }
    assert_eq!(PRJ_CB_DATA_FLAG_ENUM_RESTART_SCAN, 1);
    assert_eq!(PRJ_CB_DATA_FLAG_ENUM_RETURN_SINGLE_ENTRY, 2);
}

#[test]
fn flags_reject_unknown_bits() {
    assert!(CallbackDataFlags::from_bits(4).is_none());
    assert!(CallbackDataFlags::from_bits(5).is_none());
    assert!(CallbackDataFlags::from_bits(0x8000_0000).is_none());
}

#[test]
fn flags_contains() {
    let both = CallbackDataFlags::from_bits(3).unwrap();
    let restart = CallbackDataFlags::from_bits(1).unwrap();
    let single = CallbackDataFlags::from_bits(2).unwrap();
    assert!(both.contains(restart));
    assert!(both.contains(single));
    assert!(!restart.contains(single));
    assert!(restart.contains(CallbackDataFlags::empty()));
    assert_eq!(CallbackDataFlags::empty().bits(), 0);
}

#[test]
fn error_codes() {
    assert_eq!(io_error_to_raw(IoError::NotFound), ERROR_FILE_NOT_FOUND);
    assert_eq!(io_error_to_raw(IoError::WouldBlock), ERROR_IO_PENDING);
    assert_eq!(io_error_to_raw(IoError::InsufficientBuffer), ERROR_INSUFFICIENT_BUFFER);
    assert_eq!(io_error_to_raw(IoError::InvalidSession), GENERIC_FAILURE);
    assert_eq!(io_error_to_raw(IoError::Other), GENERIC_FAILURE);
    assert_eq!(io_error_to_raw(IoError::RawOs(5)), 5);
    assert_eq!(io_error_to_raw(IoError::RawOs(-2147024894)), -2147024894);
    assert_eq!(ERROR_FILE_NOT_FOUND, 2);
    assert_eq!(ERROR_INSUFFICIENT_BUFFER, 122);
    assert_eq!(ERROR_IO_PENDING, 997);
    assert_eq!(result_to_raw(Ok(())), S_OK);
    assert_eq!(result_to_raw(Err(IoError::NotFound)), 2);
}

#[test]
fn guid_from_fields() {
    let raw = RawGuid {
        data1: 0x1234_5678,
        data2: 0x9abc,
        data3: 0xdef0,
        data4: [1, 2, 3, 4, 5, 6, 7, 8],
    };
    assert_eq!(guid_from_raw(raw), 0x1234_5678_9abc_def0_0102_0304_0506_0708u128);
}

#[test]
fn guid_to_fields() {
    let raw = guid_to_raw(0xa1a2_a3a4_b1b2_c1c2_d1d2_d3d4_d5d6_d7d8u128);
    assert_eq!(raw.data1, 0xa1a2_a3a4);
    assert_eq!(raw.data2, 0xb1b2);
    assert_eq!(raw.data3, 0xc1c2);
    assert_eq!(raw.data4, [0xd1, 0xd2, 0xd3, 0xd4, 0xd5, 0xd6, 0xd7, 0xd8]);
}

#[test]
fn guid_round_trip_both_ways() {
    let values = [0u128, 1, u128::MAX, 0x0011_2233_4455_6677_8899_aabb_ccdd_eeff];
    for v in values {
        assert_eq!(guid_from_raw(guid_to_raw(v)), v);
    }
    let raw = RawGuid { data1: 7, data2: 0xffff, data3: 0, data4: [9, 0, 0, 0, 0, 0, 0, 0xfe] };
    let back = guid_to_raw(guid_from_raw(raw));
    assert_eq!((back.data1, back.data2, back.data3, back.data4), (raw.data1, raw.data2, raw.data3, raw.data4));
}

#[test]
fn encode_ascii_path() {
    assert_eq!(encode_wide("abc"), vec![0x61, 0x62, 0x63, 0]);
    assert_eq!(encode_wide(""), vec![0]);
}

#[test]
fn encode_surrogate_pair() {
    assert_eq!(encode_wide("\u{1D11E}"), vec![0xD834, 0xDD1E, 0]);
    assert_eq!(encode_wide("\u{E9}"), vec![0xE9, 0]);
}

#[test]
fn wide_round_trip_ascii_and_non_ascii() {
    let names = ["file.txt", "dir\\sub\\name", "caf\u{E9}", "\u{1D11E}clef", "\u{10FFFF}\u{FFFF}", ""];
    for name in names {
        let wide = encode_wide(name);
        let path = RawPath::from_wide(&wide);
        assert_eq!(path.as_wide().len(), wide.len() - 1);
        assert_eq!(path.decode(), Some(name.to_string()));
        assert_eq!(path.to_path_buf(), wide[..wide.len() - 1].to_vec());
    }
}

#[test]
fn raw_path_stops_at_terminator() {
    let buf = [0x41u16, 0x42, 0, 0x43, 0];
    assert_eq!(wide_len(&buf), 2);
    let path = RawPath::from_wide(&buf);
    assert_eq!(path.as_wide(), &[0x41u16, 0x42][..]);
    assert_eq!(path.decode(), Some("AB".to_string()));
    assert_eq!(path.to_path_buf(), vec![0x41u16, 0x42]);
    assert_eq!(wide_len(&[0x41u16, 0x42]), 2);
    assert_eq!(wide_len(&[]), 0);
}

#[test]
fn raw_path_with_lone_surrogate_is_refused() {
    let buf = [0x41u16, 0xD800, 0x42, 0];
    assert_eq!(RawPath::from_wide(&buf).decode(), None);
    let buf = [0xDC00u16, 0];
    assert_eq!(RawPath::from_wide(&buf).decode(), None);
}

#[test]
fn raw_path_copy_is_lossless() {
    let buf = [0x41u16, 0xD800, 0x42, 0, 0x43];
    assert_eq!(RawPath::from_wide(&buf).to_path_buf(), vec![0x41u16, 0xD800, 0x42]);
    let buf = [0xD800u16, 0];
    assert_eq!(RawPath::from_wide(&buf).to_path_buf(), vec![0xD800u16]);
}

fn info(name: &str, is_dir: bool, size: u64) -> FileBasicInfo {
    FileBasicInfo {
        file_name: name.to_string(),
        is_dir,
        file_size: size,
        created: 1,
        accessed: 2,
        writed: 3,
        changed: 4,
        attrs: 0x20,
    }
}

#[test]
fn basic_info_conversion() {
    let r = info("B", false, 10).to_prj_basic_info();
    assert_eq!(r.is_directory, 0);
    assert_eq!(r.file_size, 10);
    assert_eq!(r.creation_time, 1);
    assert_eq!(r.last_access_time, 2);
    assert_eq!(r.last_write_time, 3);
    assert_eq!(r.change_time, 4);
    assert_eq!(r.file_attributes, 0x20);
    let d = info("A", true, 0).to_prj_basic_info();
    assert_eq!(d.is_directory, 1);
    assert_eq!(info("big", false, u64::MAX).to_prj_basic_info().file_size, -1);
}
