use gopher::error::Error;

#[test]
fn error_codes_round_trip() {
    let all = [
        Error::Success,
        Error::NotFound,
        Error::InvalidArgs,
        Error::WouldBlock,
        Error::Timeout,
        Error::NotSupported,
        Error::NotInitialized,
        Error::Io,
        Error::InternalError,
    ];
    for (i, e) in all.iter().enumerate() {
        assert_eq!(e.code(), i);
        assert_eq!(Error::from_code(i), Some(*e));
    }
    assert_eq!(Error::from_code(9), None);
}
