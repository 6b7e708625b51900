//! Exact JSON rendering of responses, including escaping and signed
//! numbers, and the shared-drive capability check.

use safe_ffi::client::Client;
use safe_ffi::helper::DirectoryInfo;
use safe_ffi::helper::FileInfo;
use safe_ffi::helper::GetDirResponse;
use safe_ffi::nfs::CreateDirectory;
use safe_ffi::response::encode_dir_response;
use safe_ffi::response::encode_file_response;
use safe_ffi::ParameterPacket;

#[test]
fn dir_response_rendering_escapes_and_signs() {
    let response = GetDirResponse {
        info: DirectoryInfo {
            name: "a\"b\\c\u{1}".to_string(),
            is_private: false,
            is_versioned: true,
            user_metadata: "QUJD".to_string(),
            creation_time_sec: -5,
            creation_time_nsec: 999,
            modification_time_sec: i64::MIN,
            modification_time_nsec: 0,
        },
        files: Vec::new(),
        sub_directories: Vec::new(),
    };
    let text = encode_dir_response(&response);
    assert_eq!(
        text,
        "{\"info\":{\"name\":\"a\\\"b\\\\c\\u0001\",\"is_private\":false,\
         \"is_versioned\":true,\"user_metadata\":\"QUJD\",\"creation_time_sec\":-5,\
         \"creation_time_nsec\":999,\
         \"modification_time_sec\":-9223372036854775808,\
         \"modification_time_nsec\":0},\"files\":[],\"sub_directories\":[]}"
    );
}

#[test]
fn file_response_rendering_with_metadata() {
    let info = FileInfo {
        name: "x".to_string(),
        size: 3,
        user_metadata: "".to_string(),
        creation_time_sec: 1,
        creation_time_nsec: 2,
        modification_time_sec: 3,
        modification_time_nsec: 4,
    };
    let text = encode_file_response(&"QUJD".to_string(), Some(&info));
    assert_eq!(
        text,
        "{\"content\":\"QUJD\",\"metadata\":{\"name\":\"x\",\"size\":3,\
         \"user_metadata\":\"\",\"creation_time_sec\":1,\"creation_time_nsec\":2,\
         \"modification_time_sec\":3,\"modification_time_nsec\":4}}"
    );
    let bare = encode_file_response(&"".to_string(), None);
    assert_eq!(bare, "{\"content\":\"\",\"metadata\":null}");
}

#[test]
fn shared_path_needs_the_capability_flag() {
    let client = Client::create_unregistered_client();
    let mut packet = ParameterPacket {
        client,
        app_root_dir_key: None,
        safe_drive_access: false,
        safe_drive_dir_key: None,
    };
    let mut op = CreateDirectory {
        path: "/shared".to_string(),
        is_private: true,
        is_versioned: false,
        is_path_shared: true,
    };
    match op.execute(&mut packet) {
        Err(e) => assert_eq!(e.debug_description(), "FfiError::Unexpected::{Permission denied}"),
        Ok(_) => panic!("shared path allowed without the capability"),
    }

    // with the capability, a shared path without a drive reference works on
    // the user root
    packet.safe_drive_access = true;
    assert!(op.execute(&mut packet).is_ok());
}
