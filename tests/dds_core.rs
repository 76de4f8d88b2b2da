use maia_dds::dds_core::{check_device_id, name_matches, register_command};
use maia_dds::text::push_hex;
use maia_dds::{
    DdsCore, DdsError, DeviceScan, I_CHANNEL_SOURCE_ADDR, Q_CHANNEL_SOURCE_ADDR, TARGET_NAME,
};

fn entry(id: &str, name: &str) -> (Option<String>, Option<String>) {
    (Some(id.to_string()), Some(name.to_string()))
}

fn scan_of(entries: Vec<(Option<String>, Option<String>)>) -> DeviceScan {
    let mut scan = DeviceScan::new();
    for (id, name) in entries {
        scan.observe(id, name);
    }
    scan
}

fn open(entries: Vec<(Option<String>, Option<String>)>) -> Result<DdsCore, DdsError> {
    DdsCore::new(&scan_of(entries))
}

fn sample_core() -> DdsCore {
    DdsCore::from_device_id("iio:device1")
}

#[test]
fn discovery_resolves_second_device() {
    let dev = open(vec![
        entry("iio:device0", "ad9361-phy"),
        entry("iio:device1", "cf-ad9361-dds-core-lpc\n"),
    ])
    .unwrap();
    assert_eq!(
        dev.debug_file_path(),
        "/sys/kernel/debug/iio/iio:device1/direct_reg_access"
    );
}

#[test]
fn discovery_accepts_surrounding_whitespace() {
    let dev = open(vec![entry("iio:device4", " \t cf-ad9361-dds-core-lpc \r\n")]).unwrap();
    assert_eq!(
        dev.debug_file_path(),
        "/sys/kernel/debug/iio/iio:device4/direct_reg_access"
    );
}

#[test]
fn discovery_fails_when_no_name_matches() {
    let r = open(vec![
        entry("iio:device0", "other-device"),
        entry("iio:device1", "other-device\n"),
    ]);
    assert!(matches!(r, Err(DdsError::NotFound)));
}

#[test]
fn discovery_fails_on_empty_listing() {
    assert!(matches!(open(vec![]), Err(DdsError::NotFound)));
}

#[test]
fn discovery_skips_entries_without_name_file() {
    let dev = open(vec![
        (Some("trigger0".to_string()), None),
        entry("iio:device2", "cf-ad9361-dds-core-lpc"),
    ])
    .unwrap();
    assert_eq!(
        dev.debug_file_path(),
        "/sys/kernel/debug/iio/iio:device2/direct_reg_access"
    );
}

#[test]
fn discovery_keeps_first_match() {
    let mut scan = DeviceScan::new();
    assert!(!scan.is_done());
    scan.observe(Some("iio:device3".to_string()), Some("cf-ad9361-dds-core-lpc".to_string()));
    assert!(scan.is_done());
    scan.observe(Some("iio:device5".to_string()), Some("cf-ad9361-dds-core-lpc".to_string()));
    let dev = DdsCore::new(&scan).unwrap();
    assert_eq!(
        dev.debug_file_path(),
        "/sys/kernel/debug/iio/iio:device3/direct_reg_access"
    );
}

#[test]
fn discovery_rejects_missing_device_id() {
    let r = open(vec![(None, Some("cf-ad9361-dds-core-lpc".to_string()))]);
    assert!(matches!(r, Err(DdsError::InvalidDeviceId)));
}

#[test]
fn discovery_rejects_device_id_with_separator() {
    let r = open(vec![entry("a/b", "cf-ad9361-dds-core-lpc")]);
    assert!(matches!(r, Err(DdsError::InvalidDeviceId)));
    let r = open(vec![entry("", "cf-ad9361-dds-core-lpc")]);
    assert!(matches!(r, Err(DdsError::InvalidDeviceId)));
}

#[test]
fn name_matching_trims_and_compares_exactly() {
    assert!(name_matches(TARGET_NAME));
    assert!(name_matches("  cf-ad9361-dds-core-lpc\n"));
    assert!(name_matches("\u{a0}cf-ad9361-dds-core-lpc\u{3000}"));
    assert!(!name_matches("cf-ad9361-dds-core-lpc-x"));
    assert!(!name_matches("cf-ad9361-dds-core"));
    assert!(!name_matches("cf - ad9361-dds-core-lpc"));
    assert!(!name_matches(""));
}

#[test]
fn device_id_check() {
    assert!(check_device_id("iio:device0"));
    assert!(!check_device_id(""));
    assert!(!check_device_id("x/y"));
    assert!(!check_device_id("/"));
}

#[test]
fn write_register_formats_command() {
    let w = sample_core().write_register(0x80000418, 0x2);
    assert_eq!(w.payload, b"0x80000418 0x2".to_vec());
    assert_eq!(w.path, "/sys/kernel/debug/iio/iio:device1/direct_reg_access");
}

#[test]
fn write_register_renders_edges() {
    assert_eq!(register_command(0, 0), b"0x0 0x0".to_vec());
    assert_eq!(register_command(u32::MAX, 0xf), b"0xffffffff 0xf".to_vec());
    assert_eq!(register_command(0x10, 0xABCDEF), b"0x10 0xabcdef".to_vec());
    assert_eq!(register_command(0x80000458, 0x100), b"0x80000458 0x100".to_vec());
}

#[test]
fn push_hex_appends() {
    let mut out = b"x=".to_vec();
    push_hex(&mut out, 0xdead0);
    assert_eq!(out, b"x=dead0".to_vec());
}

#[test]
fn channel_setters_match_register_writes() {
    let c = sample_core();
    for v in [0u32, 1, 2, 0xa, 0xffff_ffff] {
        let i = c.set_i_channel_source(v);
        let direct = c.write_register(I_CHANNEL_SOURCE_ADDR, v);
        assert_eq!(i.path, direct.path);
        assert_eq!(i.payload, direct.payload);
        let q = c.set_q_channel_source(v);
        let direct = c.write_register(Q_CHANNEL_SOURCE_ADDR, v);
        assert_eq!(q.path, direct.path);
        assert_eq!(q.payload, direct.payload);
    }
    assert_eq!(c.set_i_channel_source(3).payload, b"0x80000418 0x3".to_vec());
    assert_eq!(c.set_q_channel_source(3).payload, b"0x80000458 0x3".to_vec());
}

#[test]
fn write_failure_names_path() {
    let c = sample_core();
    assert!(c.write_result(true).is_ok());
    match c.write_result(false) {
        Err(DdsError::WriteFailed { path }) => {
            assert_eq!(path, "/sys/kernel/debug/iio/iio:device1/direct_reg_access")
        }
        other => panic!("unexpected {:?}", other),
    }
}
