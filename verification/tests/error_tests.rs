use opal_player::error::AppError;

#[test]
fn error_messages() {
    assert_eq!(AppError::Io("denied".to_string()).message(), "IO error: denied");
    assert_eq!(AppError::Audio("no device".to_string()).message(), "Audio error: no device");
    assert_eq!(AppError::Decode("bad".to_string()).message(), "Decode error: bad");
    assert_eq!(AppError::Config("x".to_string()).message(), "Config error: x");
    assert_eq!(AppError::Playlist("no save path".to_string()).message(), "Playlist error: no save path");
    assert_eq!(AppError::NoTracks.message(), "No tracks loaded");
    assert_eq!(AppError::FileNotFound("/a".to_string()).message(), "File not found: /a");
    assert_eq!(AppError::UnsupportedFormat("wma".to_string()).message(), "Unsupported format: wma");
    assert_eq!(AppError::Other("boom".to_string()).message(), "boom");
}

#[test]
fn duplicate_is_equal_copy() {
    let e = AppError::FileNotFound("/x".to_string()).duplicate();
    assert_eq!(e.message(), "File not found: /x");
}
