use uinput::error::{from_nix, from_udev, Error, NulError, SysError, UdevError};

#[test]
fn sys_error_renders_the_os_message_unmodified() {
    let e = nix::errno::Errno::EPERM;
    let err = Error::from(SysError { code: e as i32 });
    assert_eq!(err.message(), e.to_string());
    assert_eq!(err.message(), "EPERM: Operation not permitted");
    assert_eq!(err.description(), "System error");
}

#[test]
fn sys_error_absorbed_from_nix_directly() {
    let e = nix::errno::Errno::EACCES;
    let err = from_nix(e);
    assert!(matches!(err, Error::Nix(_)));
    assert_eq!(err.message(), "EACCES: Permission denied");
    assert_eq!(err.description(), "System error");
}

#[test]
fn sys_error_round_trip_recovers_the_payload() {
    let e = nix::errno::Errno::ENOENT;
    let original = SysError { code: e as i32 };
    let original_message = original.message();
    let err = Error::from(original);
    match err {
        Error::Nix(back) => {
            assert_eq!(back.code, e as i32);
            assert_eq!(back.message(), original_message);
            assert_eq!(back.message(), e.to_string());
        }
        _ => panic!("a syscall failure must classify as Nix"),
    }
}

#[test]
fn nul_error_renders_the_position() {
    let err = Error::from(NulError { position: 3 });
    assert_eq!(
        err.message(),
        "nul byte found in provided data at position: 3"
    );
    assert_eq!(err.description(), "Null byte error");
}

#[test]
fn nul_error_renders_a_multi_digit_position() {
    let err = Error::from(NulError { position: 1204 });
    assert_eq!(
        err.message(),
        "nul byte found in provided data at position: 1204"
    );
}

#[test]
fn nul_error_round_trip_recovers_the_payload() {
    let original = NulError { position: 9 };
    let original_message = original.message();
    match Error::from(original) {
        Error::Nul(back) => {
            assert_eq!(back.position, 9);
            assert_eq!(back.message(), original_message);
        }
        _ => panic!("a name-encoding failure must classify as Nul"),
    }
}

#[test]
fn udev_error_renders_the_subsystem_message_unmodified() {
    let e = std::io::Error::from_raw_os_error(13);
    let rendered = e.to_string();
    let err = from_udev(&e);
    match &err {
        Error::Udev(u) => assert_eq!(u.code, Some(13)),
        _ => panic!("an enumeration failure must classify as Udev"),
    }
    assert_eq!(err.message(), rendered);
    assert_eq!(err.description(), "Device-enumeration error");
}

#[test]
fn udev_error_round_trip_recovers_the_payload() {
    let original = UdevError {
        code: None,
        message: String::from("no devices matched"),
    };
    let original_message = original.message();
    match Error::from(original) {
        Error::Udev(back) => {
            assert_eq!(back.code, None);
            assert_eq!(back.message, "no devices matched");
            assert_eq!(back.message(), original_message);
        }
        _ => panic!("an enumeration failure must classify as Udev"),
    }
}

#[test]
fn not_found_has_fixed_message_and_description() {
    let err = Error::NotFound;
    assert_eq!(err.message(), "Device not found.");
    assert_eq!(err.description(), "Device not found.");
}

#[test]
fn rendering_is_total_over_all_variants() {
    let errors = vec![
        Error::Nix(SysError { code: 1 }),
        Error::Nul(NulError { position: 0 }),
        Error::Udev(UdevError {
            code: None,
            message: String::new(),
        }),
        Error::NotFound,
    ];
    for err in &errors {
        let message = err.message();
        let description = err.description();
        assert!(!description.is_empty());
        let _ = message;
    }
}

#[test]
fn sys_error_with_unknown_code_still_renders() {
    let err = Error::from(SysError { code: -1 });
    assert_eq!(err.message(), "UnknownErrno: Unknown errno");
    assert_eq!(err.description(), "System error");
}

#[test]
fn decimal_rendering_exact_values() {
    assert_eq!(uinput::decimal::decimal_string(0), "0");
    assert_eq!(uinput::decimal::decimal_string(10), "10");
    assert_eq!(uinput::decimal::decimal_string(907), "907");
    assert_eq!(
        uinput::decimal::decimal_string(usize::MAX),
        usize::MAX.to_string()
    );
}
