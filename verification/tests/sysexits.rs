use clientele::IoErrorKind;
use clientele::SysexitsError;
use clientele::classify_generic_failure;
use clientele::classify_io_error;

fn all_members() -> Vec<SysexitsError> {
    vec![
        SysexitsError::EX_OK,
        SysexitsError::EX_USAGE,
        SysexitsError::EX_DATAERR,
        SysexitsError::EX_NOINPUT,
        SysexitsError::EX_NOUSER,
        SysexitsError::EX_NOHOST,
        SysexitsError::EX_UNAVAILABLE,
        SysexitsError::EX_SOFTWARE,
        SysexitsError::EX_OSERR,
        SysexitsError::EX_OSFILE,
        SysexitsError::EX_CANTCREAT,
        SysexitsError::EX_IOERR,
        SysexitsError::EX_TEMPFAIL,
        SysexitsError::EX_PROTOCOL,
        SysexitsError::EX_NOPERM,
        SysexitsError::EX_CONFIG,
    ]
}

#[test]
fn numeric_round_trip_all_members() {
    for e in all_members() {
        assert_eq!(SysexitsError::try_from_u8(e.as_u8()), Ok(e));
        assert_eq!(SysexitsError::try_from_i32(e.as_i32()), Ok(e));
    }
}

#[test]
fn name_round_trip_all_members() {
    for e in all_members() {
        assert_eq!(SysexitsError::parse(e.name()), Ok(e));
        assert_eq!(SysexitsError::parse(e.as_str()), Ok(e));
    }
}

#[test]
fn numeric_values_match_sysexits_table() {
    let expected: Vec<u8> = vec![0, 64, 65, 66, 67, 68, 69, 70, 71, 72, 73, 74, 75, 76, 77, 78];
    let members = all_members();
    for i in 0..members.len() {
        assert_eq!(members[i].as_u8(), expected[i]);
        assert_eq!(members[i].as_i32(), expected[i] as i32);
        assert_eq!(members[i].code(), Some(expected[i] as i32));
    }
}

#[test]
fn unknown_u8_codes_rejected_with_value() {
    for code in 0..=255u8 {
        let defined = code == 0 || (64..=78).contains(&code);
        let got = SysexitsError::try_from_u8(code);
        if defined {
            assert_eq!(got.map(|e| e.as_u8()), Ok(code));
        } else {
            assert_eq!(got, Err(code));
        }
    }
}

#[test]
fn out_of_range_i32_codes_rejected_untruncated() {
    assert_eq!(SysexitsError::try_from_i32(-1), Err(-1));
    assert_eq!(SysexitsError::try_from_i32(256), Err(256));
    assert_eq!(SysexitsError::try_from_i32(320), Err(320));
    assert_eq!(SysexitsError::try_from_i32(i32::MIN), Err(i32::MIN));
    assert_eq!(SysexitsError::try_from_i32(i32::MAX), Err(i32::MAX));
    assert_eq!(SysexitsError::try_from_i32(79), Err(79));
}

#[test]
fn parse_rejects_unrecognized_strings() {
    assert_eq!(SysexitsError::parse(""), Err(()));
    assert_eq!(SysexitsError::parse("ex_ok"), Err(()));
    assert_eq!(SysexitsError::parse("EX_ok"), Err(()));
    assert_eq!(SysexitsError::parse(" EX_OK"), Err(()));
    assert_eq!(SysexitsError::parse("EX_OK "), Err(()));
    assert_eq!(SysexitsError::parse("OK"), Err(()));
    assert_eq!(SysexitsError::parse("EX_BOGUS"), Err(()));
    assert_eq!(SysexitsError::parse("1e2"), Err(()));
    assert_eq!(SysexitsError::parse("0x40"), Err(()));
    assert_eq!(SysexitsError::parse("-1"), Err(()));
    assert_eq!(SysexitsError::parse("+"), Err(()));
    assert_eq!(SysexitsError::parse("6 4"), Err(()));
}

#[test]
fn parse_rejects_numerals_outside_fixed_set() {
    assert_eq!(SysexitsError::parse("1"), Err(()));
    assert_eq!(SysexitsError::parse("63"), Err(()));
    assert_eq!(SysexitsError::parse("79"), Err(()));
    assert_eq!(SysexitsError::parse("255"), Err(()));
    assert_eq!(SysexitsError::parse("256"), Err(()));
    assert_eq!(SysexitsError::parse("99999999999999999999"), Err(()));
}

#[test]
fn parse_accepts_decimal_numerals() {
    assert_eq!(SysexitsError::parse("0"), Ok(SysexitsError::EX_OK));
    assert_eq!(SysexitsError::parse("64"), Ok(SysexitsError::EX_USAGE));
    assert_eq!(SysexitsError::parse("+78"), Ok(SysexitsError::EX_CONFIG));
    assert_eq!(SysexitsError::parse("078"), Ok(SysexitsError::EX_CONFIG));
    assert_eq!(SysexitsError::parse("00"), Ok(SysexitsError::EX_OK));
}

#[test]
fn success_and_failure_are_exclusive() {
    for e in all_members() {
        assert_ne!(e.is_success(), e.is_failure());
        assert_eq!(e.is_success(), e == SysexitsError::EX_OK);
    }
}

#[test]
fn classification_covers_every_category() {
    let table = vec![
        (IoErrorKind::AddrInUse, SysexitsError::EX_TEMPFAIL),
        (IoErrorKind::AddrNotAvailable, SysexitsError::EX_USAGE),
        (IoErrorKind::AlreadyExists, SysexitsError::EX_CANTCREAT),
        (IoErrorKind::BrokenPipe, SysexitsError::EX_IOERR),
        (IoErrorKind::ConnectionAborted, SysexitsError::EX_PROTOCOL),
        (IoErrorKind::ConnectionRefused, SysexitsError::EX_UNAVAILABLE),
        (IoErrorKind::ConnectionReset, SysexitsError::EX_PROTOCOL),
        (IoErrorKind::Interrupted, SysexitsError::EX_TEMPFAIL),
        (IoErrorKind::InvalidData, SysexitsError::EX_DATAERR),
        (IoErrorKind::InvalidInput, SysexitsError::EX_DATAERR),
        (IoErrorKind::NotConnected, SysexitsError::EX_PROTOCOL),
        (IoErrorKind::NotFound, SysexitsError::EX_NOINPUT),
        (IoErrorKind::Other, SysexitsError::EX_UNAVAILABLE),
        (IoErrorKind::OutOfMemory, SysexitsError::EX_TEMPFAIL),
        (IoErrorKind::PermissionDenied, SysexitsError::EX_NOPERM),
        (IoErrorKind::TimedOut, SysexitsError::EX_IOERR),
        (IoErrorKind::UnexpectedEof, SysexitsError::EX_IOERR),
        (IoErrorKind::Unsupported, SysexitsError::EX_SOFTWARE),
        (IoErrorKind::WouldBlock, SysexitsError::EX_IOERR),
        (IoErrorKind::WriteZero, SysexitsError::EX_IOERR),
    ];
    for (kind, expected) in table {
        let got = classify_io_error(kind);
        assert_eq!(got, expected);
        assert!(got.is_failure());
    }
}

#[test]
fn generic_failures_classify_as_software_error() {
    assert_eq!(classify_generic_failure(), SysexitsError::EX_SOFTWARE);
}

#[test]
fn noperm_scenario() {
    assert_eq!(SysexitsError::parse("EX_NOPERM"), Ok(SysexitsError::EX_NOPERM));
    assert_eq!(SysexitsError::EX_NOPERM.as_u8(), 77);
}

#[test]
fn dataerr_scenario() {
    assert_eq!(SysexitsError::try_from_u8(65), Ok(SysexitsError::EX_DATAERR));
    assert_eq!(SysexitsError::try_from_u8(200), Err(200));
}

#[test]
fn permission_denied_scenario() {
    assert_eq!(classify_io_error(IoErrorKind::PermissionDenied), SysexitsError::EX_NOPERM);
    assert_eq!(classify_io_error(IoErrorKind::Other), SysexitsError::EX_UNAVAILABLE);
}

#[test]
fn config_numeral_scenario() {
    assert_eq!(SysexitsError::parse("78"), Ok(SysexitsError::EX_CONFIG));
    assert_eq!(SysexitsError::parse("79"), Err(()));
}

#[test]
fn default_is_success() {
    let e = SysexitsError::default();
    assert_eq!(e, SysexitsError::EX_OK);
    assert!(e.is_success());
}

#[test]
fn names_match_sysexits_spelling() {
    assert_eq!(SysexitsError::EX_OK.name(), "EX_OK");
    assert_eq!(SysexitsError::EX_UNAVAILABLE.name(), "EX_UNAVAILABLE");
    assert_eq!(SysexitsError::EX_CONFIG.name(), "EX_CONFIG");
    for e in all_members() {
        assert_eq!(e.as_str(), e.name());
    }
}

#[test]
fn summaries_match_sysexits_descriptions() {
    assert_eq!(SysexitsError::EX_OK.summary(), "successful termination");
    assert_eq!(SysexitsError::EX_USAGE.summary(), "command line usage error");
    assert_eq!(SysexitsError::EX_CANTCREAT.summary(), "can't create (user) output file");
    assert_eq!(SysexitsError::EX_CONFIG.summary(), "configuration error");
}

#[test]
fn from_str_matches_parse() {
    assert_eq!("EX_IOERR".parse::<SysexitsError>(), Ok(SysexitsError::EX_IOERR));
    assert_eq!("74".parse::<SysexitsError>(), Ok(SysexitsError::EX_IOERR));
    assert_eq!("nonsense".parse::<SysexitsError>(), Err(()));
}

#[test]
fn status_codes_distinguish_missing_from_unknown() {
    assert_eq!(SysexitsError::from_status_code(Some(0)), Ok(SysexitsError::EX_OK));
    assert_eq!(SysexitsError::from_status_code(Some(77)), Ok(SysexitsError::EX_NOPERM));
    assert_eq!(SysexitsError::from_status_code(Some(99)), Err(Some(99)));
    assert_eq!(SysexitsError::from_status_code(Some(-7)), Err(Some(-7)));
    assert_eq!(SysexitsError::from_status_code(None), Err(None));
}
