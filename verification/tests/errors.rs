use postal::{find_nul, to_c_string, EngineState, Flags, InitOptions, PostalError, SetupCall};

#[test]
fn messages() {
    assert_eq!(PostalError::LibpostalSetup.message(), "libpostal_setup failed");
    assert_eq!(
        PostalError::LibpostalEnableExpansion.message(),
        "libpostal_setup_language_classifier failed"
    );
    assert_eq!(PostalError::LibpostalEnableParsing.message(), "libpostal_setup_parser failed");
    assert_eq!(
        PostalError::LibpostalNotReady.message(),
        "libpostal is not ready, call init() with desired options"
    );
}

#[test]
fn bad_c_string_message_names_the_position() {
    assert_eq!(
        PostalError::BadCString(0).message(),
        "failed to convert &str into c string, error: 'nul byte found in provided data at position: 0'"
    );
    assert_eq!(
        PostalError::BadCString(7).message(),
        "failed to convert &str into c string, error: 'nul byte found in provided data at position: 7'"
    );
    assert_eq!(
        PostalError::BadCString(10).message(),
        "failed to convert &str into c string, error: 'nul byte found in provided data at position: 10'"
    );
    assert_eq!(
        PostalError::BadCString(4096).message(),
        "failed to convert &str into c string, error: 'nul byte found in provided data at position: 4096'"
    );
    assert_eq!(
        PostalError::BadCString(usize::MAX).message(),
        format!(
            "failed to convert &str into c string, error: 'nul byte found in provided data at position: {}'",
            usize::MAX
        )
    );
}

#[test]
fn only_a_bad_c_string_has_a_cause() {
    assert_eq!(PostalError::BadCString(3).cause(), Some(3));
    assert_eq!(PostalError::LibpostalSetup.cause(), None);
    assert_eq!(PostalError::LibpostalEnableExpansion.cause(), None);
    assert_eq!(PostalError::LibpostalEnableParsing.cause(), None);
    assert_eq!(PostalError::LibpostalNotReady.cause(), None);
}

#[test]
fn errors_can_be_told_apart() {
    assert_ne!(PostalError::LibpostalSetup, PostalError::LibpostalNotReady);
    assert_ne!(PostalError::LibpostalEnableExpansion, PostalError::LibpostalEnableParsing);
    assert_ne!(PostalError::BadCString(1), PostalError::BadCString(2));
    assert_eq!(PostalError::BadCString(1), PostalError::BadCString(1));
}

#[test]
fn find_nul_finds_the_first() {
    assert_eq!(find_nul(b""), None);
    assert_eq!(find_nul(b"abc"), None);
    assert_eq!(find_nul(b"\0"), Some(0));
    assert_eq!(find_nul(b"ab\0cd\0"), Some(2));
    assert_eq!(find_nul(b"abcd\0"), Some(4));
}

#[test]
fn to_c_string_appends_one_zero() {
    assert_eq!(to_c_string(b""), Ok(vec![0]));
    assert_eq!(to_c_string(b"fr"), Ok(vec![b'f', b'r', 0]));
    assert_eq!(to_c_string("é".as_bytes()), Ok(vec![0xc3, 0xa9, 0]));
    assert_eq!(to_c_string(b"a\0b"), Err(1));
    assert_eq!(to_c_string(b"\0\0"), Err(0));
}

#[test]
fn record_setup_step_by_step() {
    let both = InitOptions { expand_address: true, parse_address: true, data_dir: None };
    let parse = InitOptions { expand_address: false, parse_address: true, data_dir: None };
    let mut state = EngineState::new();
    assert!(!state.expand_ready());
    assert!(!state.parse_ready());

    assert_eq!(state.record_setup(SetupCall::Base, false, &both), Err(PostalError::LibpostalSetup));
    assert_eq!(
        state.flags(),
        Flags { setup_done: false, expand_address_enabled: false, parse_address_enabled: false }
    );

    assert_eq!(state.record_setup(SetupCall::Base, true, &parse), Ok(Some(SetupCall::Parser)));
    assert_eq!(
        state.record_setup(SetupCall::Parser, false, &parse),
        Err(PostalError::LibpostalEnableParsing)
    );
    assert!(!state.parse_ready());
    assert_eq!(state.record_setup(SetupCall::Parser, true, &parse), Ok(None));
    assert!(state.parse_ready());
    assert!(!state.expand_ready());

    assert_eq!(
        state.record_setup(SetupCall::LanguageClassifier, false, &both),
        Err(PostalError::LibpostalEnableExpansion)
    );
    assert_eq!(
        state.record_setup(SetupCall::LanguageClassifier, true, &both),
        Ok(Some(SetupCall::Parser))
    );
    assert!(state.expand_ready());
    assert_eq!(
        state.flags(),
        Flags { setup_done: true, expand_address_enabled: true, parse_address_enabled: true }
    );
}

#[test]
fn capability_without_base_setup_is_not_ready() {
    let opts = InitOptions { expand_address: true, parse_address: true, data_dir: None };
    let mut state = EngineState::new();
    state.record_setup(SetupCall::LanguageClassifier, true, &opts).unwrap();
    state.record_setup(SetupCall::Parser, true, &opts).unwrap();
    assert!(!state.expand_ready());
    assert!(!state.parse_ready());
}
