use mpdclient::IoError;
use mpdclient::MpdError;
use mpdclient::MpdErrorKind;
use mpdclient::ServerError;
use mpdclient::server_error_from_code;

#[test]
fn error_accessors_return_what_was_stored() {
    let e = MpdError::new(MpdErrorKind::UnknownHost, String::from("host not found"));
    assert_eq!(*e.kind(), MpdErrorKind::UnknownHost);
    assert_eq!(e.errormsg(), "host not found");
}

#[test]
fn error_accessors_io_kind() {
    let e = MpdError::new(
        MpdErrorKind::Io(IoError::Os(110)),
        String::from("connection timed out"),
    );
    assert_eq!(*e.kind(), MpdErrorKind::Io(IoError::Os(110)));
    assert_eq!(e.errormsg(), "connection timed out");
}

#[test]
fn server_error_classification_listed_codes() {
    assert_eq!(server_error_from_code(1), ServerError::NotListed);
    assert_eq!(server_error_from_code(2), ServerError::Arguments);
    assert_eq!(server_error_from_code(3), ServerError::Password);
    assert_eq!(server_error_from_code(4), ServerError::Permissions);
    assert_eq!(server_error_from_code(5), ServerError::UnknownCmd);
    assert_eq!(server_error_from_code(50), ServerError::NoExist);
    assert_eq!(server_error_from_code(51), ServerError::PlaylistMax);
    assert_eq!(server_error_from_code(52), ServerError::System);
    assert_eq!(server_error_from_code(53), ServerError::PlaylistLoad);
    assert_eq!(server_error_from_code(54), ServerError::UpdateAlready);
    assert_eq!(server_error_from_code(55), ServerError::PlayerSync);
    assert_eq!(server_error_from_code(56), ServerError::Exists);
}

#[test]
fn server_error_classification_unlisted_codes_default_to_unknown() {
    assert_eq!(server_error_from_code(-1), ServerError::Unknown);
    assert_eq!(server_error_from_code(0), ServerError::Unknown);
    assert_eq!(server_error_from_code(6), ServerError::Unknown);
    assert_eq!(server_error_from_code(49), ServerError::Unknown);
    assert_eq!(server_error_from_code(57), ServerError::Unknown);
    assert_eq!(server_error_from_code(i32::MAX), ServerError::Unknown);
    assert_eq!(server_error_from_code(i32::MIN), ServerError::Unknown);
}

#[test]
fn server_error_protocol_numbers() {
    assert_eq!(ServerError::Unknown.code(), -1);
    assert_eq!(ServerError::NotListed.code(), 1);
    assert_eq!(ServerError::Arguments.code(), 2);
    assert_eq!(ServerError::Password.code(), 3);
    assert_eq!(ServerError::Permissions.code(), 4);
    assert_eq!(ServerError::UnknownCmd.code(), 5);
    assert_eq!(ServerError::NoExist.code(), 50);
    assert_eq!(ServerError::PlaylistMax.code(), 51);
    assert_eq!(ServerError::System.code(), 52);
    assert_eq!(ServerError::PlaylistLoad.code(), 53);
    assert_eq!(ServerError::UpdateAlready.code(), 54);
    assert_eq!(ServerError::PlayerSync.code(), 55);
    assert_eq!(ServerError::Exists.code(), 56);
}

#[test]
fn server_error_codes_round_trip() {
    let all = [
        ServerError::Unknown,
        ServerError::NotListed,
        ServerError::Arguments,
        ServerError::Password,
        ServerError::Permissions,
        ServerError::UnknownCmd,
        ServerError::NoExist,
        ServerError::PlaylistMax,
        ServerError::System,
        ServerError::PlaylistLoad,
        ServerError::UpdateAlready,
        ServerError::PlayerSync,
        ServerError::Exists,
    ];
    for e in all {
        assert_eq!(server_error_from_code(e.code()), e);
    }
}
