use opent5::db::{
    check_fastfile_header, fastfile_header_error, FastfileHeader, FASTFILE_EXPECTED_VERSION, FASTFILE_HEADER_MAGIC_0,
    FASTFILE_HEADER_MAGIC_U,
};

#[test]
fn fastfile_header_verdicts() {
    assert_eq!(FASTFILE_HEADER_MAGIC_U, 0x4957_6666_75_313030);
    assert_eq!(FASTFILE_HEADER_MAGIC_0, 0x4957_6666_30_313030);
    assert_eq!(check_fastfile_header(0, FASTFILE_EXPECTED_VERSION), FastfileHeader::Corrupt);
    assert_eq!(check_fastfile_header(FASTFILE_HEADER_MAGIC_U, 0x1D8), FastfileHeader::OutOfDate);
    assert_eq!(check_fastfile_header(FASTFILE_HEADER_MAGIC_0, 0x1DA), FastfileHeader::Newer);
    assert_eq!(check_fastfile_header(FASTFILE_HEADER_MAGIC_U, 0x1D9), FastfileHeader::Secure);
    assert_eq!(check_fastfile_header(FASTFILE_HEADER_MAGIC_0, 0x1D9), FastfileHeader::Unauthenticated);
    // the magic number is checked before the version
    assert_eq!(check_fastfile_header(1, 0), FastfileHeader::Corrupt);
}

#[test]
fn fastfile_header_errors() {
    assert_eq!(
        fastfile_header_error("common", 7, 0x1D9),
        Some("Fastfile for zone 'common' is corrupt or unreadable.\n (DROP)".to_string())
    );
    assert_eq!(
        fastfile_header_error("ui", FASTFILE_HEADER_MAGIC_U, 400),
        Some("Fastfile for zone 'ui' is out of date (version 400, expecting 473)\n (DROP)".to_string())
    );
    assert_eq!(
        fastfile_header_error("ui", FASTFILE_HEADER_MAGIC_0, 500),
        Some("Fastfile for zone 'ui' is newer than client executable (version 500, expecting 473)\n (DROP)".to_string())
    );
    assert_eq!(
        fastfile_header_error("ui", FASTFILE_HEADER_MAGIC_0, 473),
        Some("Fastfile for zone 'ui' could not be loaded (authenticated file not supported)\n (DROP)".to_string())
    );
    assert_eq!(fastfile_header_error("ui", FASTFILE_HEADER_MAGIC_U, 473), None);
}
