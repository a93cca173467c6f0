use sgx_quoteverify::error::{status_to_result, Quote3Error, STATUS_SUCCESS};

#[test]
fn status_success_is_ok() {
    assert_eq!(status_to_result(STATUS_SUCCESS), Ok(()));
}

#[test]
fn status_invalid_parameter() {
    assert_eq!(status_to_result(0xE002), Err(Quote3Error::InvalidParameter));
}

#[test]
fn status_known_codes_map_to_their_variants() {
    assert_eq!(status_to_result(0xE001), Err(Quote3Error::Unexpected));
    assert_eq!(status_to_result(0xE003), Err(Quote3Error::OutOfMemory));
    assert_eq!(status_to_result(0xE00E), Err(Quote3Error::PlatformLibUnavailable));
    assert_eq!(status_to_result(0xE02C), Err(Quote3Error::TcbInfoExpired));
    assert_eq!(status_to_result(0xE035), Err(Quote3Error::InvalidPrivilege));
    assert_eq!(status_to_result(0xE049), Err(Quote3Error::CertsUnavailable));
    assert_eq!(status_to_result(0xE053), Err(Quote3Error::CollateralVersionNotSupported));
    assert_eq!(status_to_result(0xE068), Err(Quote3Error::InvalidSignature));
    assert_eq!(status_to_result(0xE073), Err(Quote3Error::ReportDataMismatch));
    assert_eq!(status_to_result(0xE0FF), Err(Quote3Error::Max));
}

#[test]
fn status_unknown_codes_are_carried_through() {
    assert_eq!(status_to_result(0xE036), Err(Quote3Error::Unknown(0xE036)));
    assert_eq!(status_to_result(0xE04A), Err(Quote3Error::Unknown(0xE04A)));
    assert_eq!(status_to_result(0x1234), Err(Quote3Error::Unknown(0x1234)));
    assert_eq!(status_to_result(0xFFFF_FFFF), Err(Quote3Error::Unknown(0xFFFF_FFFF)));
}

#[test]
fn distinct_codes_report_distinct_errors() {
    // A sample across the whole space, including unknown codes; no two of
    // these statuses may be reported as the same result.
    let codes: [u32; 12] = [
        0x0000, 0xE001, 0xE002, 0xE005, 0xE012, 0xE02A, 0xE036, 0xE03B, 0xE049, 0xE060, 0xE0FF,
        0x1234,
    ];
    for (i, a) in codes.iter().enumerate() {
        for (j, b) in codes.iter().enumerate() {
            if i != j {
                assert_ne!(status_to_result(*a), status_to_result(*b));
            }
        }
    }
}
