use rust_on_rails::drivers::{cloud_get_reply, cloud_status, CameraRoll, CloudStorage, CloudStorageError, ImageOrientation, PhotoPicker, Share};

#[test]
fn cloud_storage_is_unsupported_here() {
    assert_eq!(CloudStorage::save("k", "v"), Err("CloudStorage::save not implemented for this platform".to_string()));
    assert_eq!(CloudStorage::get("k"), Err("CloudStorage::get not implemented for this platform".to_string()));
    assert_eq!(CloudStorage::remove("k"), Err("CloudStorage::remove not implemented for this platform".to_string()));
    assert_eq!(CloudStorage::clear(), Err("CloudStorage::clear not implemented for this platform".to_string()));
}

#[test]
fn cloud_storage_error_messages() {
    assert_eq!(CloudStorageError::JniError("boom".to_string()).message(), "JNI Error: boom");
    assert_eq!(CloudStorageError::ContextNotFound.message(), "Android context not found");
    assert_eq!(CloudStorageError::JavaVmNotInitialized.message(), "JavaVM not initialized");
}

#[test]
fn camera_roll_has_no_picker_here() {
    assert_eq!(CameraRoll::get(), None);
}

#[test]
fn photo_picker_sends_nothing_here() {
    let (sender, receiver) = std::sync::mpsc::channel();
    PhotoPicker::open(sender);
    assert!(receiver.recv().is_err());
}

#[test]
fn orientations() {
    let all = [
        ImageOrientation::Up,
        ImageOrientation::Down,
        ImageOrientation::Left,
        ImageOrientation::Right,
        ImageOrientation::UpMirrored,
        ImageOrientation::DownMirrored,
        ImageOrientation::LeftMirrored,
        ImageOrientation::RightMirrored,
    ];
    for (i, o) in all.iter().enumerate() {
        assert_eq!(ImageOrientation::get(i as i64), *o);
    }
    assert_eq!(ImageOrientation::get(8), ImageOrientation::Up);
    assert_eq!(ImageOrientation::get(-1), ImageOrientation::Up);
}

#[test]
fn share_new() {
    let _share: Share = Share::new();
}

#[test]
fn cloud_status_codes() {
    assert_eq!(cloud_status(&Ok(())), 0);
    assert_eq!(cloud_status(&Err(CloudStorageError::ContextNotFound)), -1);
}

#[test]
fn cloud_get_reply_codes() {
    let found: Result<Option<String>, CloudStorageError> = Ok(Some("héllo".to_string()));
    assert_eq!(cloud_get_reply(&found, 16), (6, Some(vec![b'h', 0xc3, 0xa9, b'l', b'l', b'o', 0])));
    assert_eq!(cloud_get_reply(&found, 7), (6, Some(vec![b'h', 0xc3, 0xa9, b'l', b'l', b'o', 0])));
    assert_eq!(cloud_get_reply(&found, 6), (-2, None));
    assert_eq!(cloud_get_reply(&Ok(None), 16), (0, None));
    assert_eq!(cloud_get_reply(&Err(CloudStorageError::JavaVmNotInitialized), 16), (-1, None));
    assert_eq!(cloud_get_reply(&Ok(Some(String::new())), 1), (0, Some(vec![0])));
    assert_eq!(cloud_get_reply(&Ok(Some(String::new())), 0), (-2, None));
}
