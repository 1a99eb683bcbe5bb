use vstd::prelude::*;
use vstd::string::*;

verus! {

/// `std::sync::mpsc::Sender`, the sending half of a channel.
#[verifier::external_type_specification]
#[verifier::external_body]
#[verifier::reject_recursive_types(T)]
pub struct ExSender<T>(std::sync::mpsc::Sender<T>);

/// Key-value storage synchronised through the platform's cloud account
/// (iCloud key-value store, Android shared preferences). Other platforms have
/// none: there every operation fails with a message that names it.
#[derive(Debug)]
pub struct CloudStorage;

impl CloudStorage {
    /// Store `value` under `key`; unsupported on this platform.
    pub fn save(_key: &str, _value: &str) -> (r: Result<(), String>)
        ensures
            r matches Err(e) && e@ == "CloudStorage::save not implemented for this platform"@,
    {
        Err(String::from_str("CloudStorage::save not implemented for this platform"))
    }

    /// The value stored under `key`; unsupported on this platform.
    pub fn get(_key: &str) -> (r: Result<Option<String>, String>)
        ensures
            r matches Err(e) && e@ == "CloudStorage::get not implemented for this platform"@,
    {
        Err(String::from_str("CloudStorage::get not implemented for this platform"))
    }

    /// Remove what is stored under `key`; unsupported on this platform.
    pub fn remove(_key: &str) -> (r: Result<(), String>)
        ensures
            r matches Err(e) && e@ == "CloudStorage::remove not implemented for this platform"@,
    {
        Err(String::from_str("CloudStorage::remove not implemented for this platform"))
    }

    /// Remove everything stored; unsupported on this platform.
    pub fn clear() -> (r: Result<(), String>)
        ensures
            r matches Err(e) && e@ == "CloudStorage::clear not implemented for this platform"@,
    {
        Err(String::from_str("CloudStorage::clear not implemented for this platform"))
    }
}

impl Default for CloudStorage {
    fn default() -> (r: Self) {
        CloudStorage
    }
}

/// Why the Android cloud storage failed.
#[derive(Debug)]
pub enum CloudStorageError {
    JniError(String),
    ContextNotFound,
    JavaVmNotInitialized,
}

impl CloudStorageError {
    pub open spec fn spec_message(&self) -> Seq<char> {
        match self {
            CloudStorageError::JniError(msg) => "JNI Error: "@ + msg@,
            CloudStorageError::ContextNotFound => "Android context not found"@,
            CloudStorageError::JavaVmNotInitialized => "JavaVM not initialized"@,
        }
    }

    /// The text the error is shown with.
    pub fn message(&self) -> (r: String)
        ensures
            r@ == self.spec_message(),
    {
        match self {
            CloudStorageError::JniError(msg) => {
                let mut text = String::from_str("JNI Error: ");
                text.append(msg.as_str());
                text
            },
            CloudStorageError::ContextNotFound => String::from_str("Android context not found"),
            CloudStorageError::JavaVmNotInitialized => String::from_str("JavaVM not initialized"),
        }
    }
}

/// The status a C caller of the cloud storage gets for a save, remove or
/// clear: 0 on success, -1 on failure.
pub fn cloud_status(result: &Result<(), CloudStorageError>) -> (r: i32)
    ensures
        r == (if result is Ok { 0i32 } else { -1i32 }),
{
    match result {
        Ok(_) => 0,
        Err(_) => -1,
    }
}

/// What a C caller of the cloud storage gets for a read into a buffer of
/// `buffer_size` bytes: the status (the value's length in bytes, 0 for a
/// missing key, -1 on failure, -2 when the value and its terminating zero do
/// not fit) and the bytes to copy into the buffer (the value's UTF-8 bytes and
/// a zero), if any.
pub open spec fn spec_cloud_get_reply(result: Result<Option<String>, CloudStorageError>, buffer_size: usize) -> (i32, Option<Seq<u8>>) {
    match result {
        Ok(Some(value)) => {
            let bytes = vstd::utf8::encode_utf8(value@);
            if bytes.len() + 1 > buffer_size {
                (-2i32, None)
            } else {
                (bytes.len() as i32, Some(bytes.push(0u8)))
            }
        },
        Ok(None) => (0i32, None),
        Err(_) => (-1i32, None),
    }
}

/// See `spec_cloud_get_reply`.
pub fn cloud_get_reply(result: &Result<Option<String>, CloudStorageError>, buffer_size: usize) -> (r: (i32, Option<Vec<u8>>))
    ensures
        r.0 == spec_cloud_get_reply(*result, buffer_size).0,
        r.1 matches Some(bytes) ==> spec_cloud_get_reply(*result, buffer_size).1 == Some(bytes@),
        r.1 is None ==> spec_cloud_get_reply(*result, buffer_size).1 is None,
{
    match result {
        Ok(Some(value)) => {
            let bytes = value.as_str().as_bytes();
            let len: usize = bytes.len();
            if len >= buffer_size {
                (-2, None)
            } else {
                let mut out = vstd::slice::slice_to_vec(bytes);
                out.push(0);
                (#[verifier::truncate] (len as i32), Some(out))
            }
        },
        Ok(None) => (0, None),
        Err(_) => (-1, None),
    }
}

/// The photo library picker. Only iOS presents one.
pub struct CameraRoll;

impl CameraRoll {
    /// The path of the picked image; no picker exists on this platform.
    pub fn get() -> (r: Option<String>)
        ensures
            r is None,
    {
        None
    }
}

/// How a picked photo is oriented, as UIKit numbers it.
#[derive(Debug, Clone, Copy, PartialEq, Eq, Structural)]
pub enum ImageOrientation {
    Up,
    Down,
    Left,
    Right,
    UpMirrored,
    DownMirrored,
    LeftMirrored,
    RightMirrored,
}

impl ImageOrientation {
    pub open spec fn spec_get(orientation: i64) -> ImageOrientation {
        if orientation == 1 {
            ImageOrientation::Down
        } else if orientation == 2 {
            ImageOrientation::Left
        } else if orientation == 3 {
            ImageOrientation::Right
        } else if orientation == 4 {
            ImageOrientation::UpMirrored
        } else if orientation == 5 {
            ImageOrientation::DownMirrored
        } else if orientation == 6 {
            ImageOrientation::LeftMirrored
        } else if orientation == 7 {
            ImageOrientation::RightMirrored
        } else {
            ImageOrientation::Up
        }
    }

    /// The orientation numbered `orientation` (0 to 7); any other number is `Up`.
    pub fn get(orientation: i64) -> (r: Self)
        ensures
            r == Self::spec_get(orientation),
    {
        match orientation {
            0 => ImageOrientation::Up,
            1 => ImageOrientation::Down,
            2 => ImageOrientation::Left,
            3 => ImageOrientation::Right,
            4 => ImageOrientation::UpMirrored,
            5 => ImageOrientation::DownMirrored,
            6 => ImageOrientation::LeftMirrored,
            7 => ImageOrientation::RightMirrored,
            _ => ImageOrientation::Up,
        }
    }
}

/// The photo picker. Only iOS presents one; elsewhere opening it sends nothing.
pub struct PhotoPicker;

impl PhotoPicker {
    /// Open the picker, which sends the picked image and its orientation over
    /// `_sender`; this platform has no picker, so nothing is ever sent.
    pub fn open(_sender: std::sync::mpsc::Sender<(Vec<u8>, ImageOrientation)>) {
    }
}

/// The system share sheet.
pub struct Share;

impl Share {
    pub fn new() -> (r: Self) {
        Share
    }
}

/// The eight orientations are numbered 0 to 7 one for one.
pub proof fn lemma_orientation_numbers_distinct(a: i64, b: i64)
    requires
        0 <= a < 8,
        0 <= b < 8,
        a != b,
    ensures
        ImageOrientation::spec_get(a) != ImageOrientation::spec_get(b),
{
}

} // verus!
