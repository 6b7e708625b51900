//! Driving the dispatcher end to end.

use safe_ffi::buffer::BufferEscrow;
use safe_ffi::client::Client;
use safe_ffi::client::NetworkEvent;
use safe_ffi::create_unregistered_client;
use safe_ffi::deliver_network_event;
use safe_ffi::dns::get_file::GetFile;
use safe_ffi::drop_client;
use safe_ffi::drop_vector;
use safe_ffi::execute;
use safe_ffi::execute_for_content;
use safe_ffi::nfs::AccessLevel;
use safe_ffi::nfs::DirectoryKey;
use safe_ffi::register_network_event_observer;
use safe_ffi::FfiRegistry;
use safe_ffi::ParameterPacket;

fn root_key() -> DirectoryKey {
    DirectoryKey {
        id: 0,
        type_tag: 0,
        versioned: false,
        access_level: AccessLevel::Private,
    }
}

#[test]
fn unknown_module_is_terminal_for_request_only() {
    let mut registry = FfiRegistry::new();
    let mut handle: u64 = 0;
    assert_eq!(create_unregistered_client(&mut registry, &mut handle), 0);

    // an unknown module yields the "not implemented" condition...
    let status = execute(
        "{\"module\":\"unknown\",\"action\":\"whatever\"}",
        &mut registry,
        handle,
    );
    assert_eq!(
        status,
        safe_ffi::errors::FfiError::Unexpected("not implemented".to_string()).error_code()
    );

    // ...and the handle stays usable for a subsequent, valid request
    let ok = execute(
        "{\"module\":\"storage\",\"action\":\"create_directory\",\"path\":\"/a\"}",
        &mut registry,
        handle,
    );
    assert_eq!(ok, 0);

    assert!(drop_client(&mut registry, handle).is_ok());
}

#[test]
fn unknown_action_is_terminal_for_request_only() {
    let mut registry = FfiRegistry::new();
    let mut handle: u64 = 0;
    assert_eq!(create_unregistered_client(&mut registry, &mut handle), 0);

    let status = execute(
        "{\"module\":\"storage\",\"action\":\"rotate\"}",
        &mut registry,
        handle,
    );
    assert_eq!(status, -1504);

    let ok = execute(
        "{\"module\":\"storage\",\"action\":\"create_directory\",\"path\":\"/b\"}",
        &mut registry,
        handle,
    );
    assert_eq!(ok, 0);

    assert!(drop_client(&mut registry, handle).is_ok());
}

#[test]
fn malformed_payload_is_a_parse_error() {
    let mut registry = FfiRegistry::new();
    let mut handle: u64 = 0;
    assert_eq!(create_unregistered_client(&mut registry, &mut handle), 0);

    assert_eq!(execute("{not json", &mut registry, handle), -1504);
    assert_eq!(execute("{\"module\":\"storage\"}", &mut registry, handle), -1504);

    assert!(drop_client(&mut registry, handle).is_ok());
}

#[test]
fn create_then_read_missing_path_then_destroy() {
    // create a session
    let mut registry = FfiRegistry::new();
    let mut handle: u64 = 0;
    assert_eq!(create_unregistered_client(&mut registry, &mut handle), 0);
    assert_eq!(register_network_event_observer(&mut registry, handle, 1), 0);

    // create a directory: success, status 0
    let status = execute(
        "{\"module\":\"storage\",\"action\":\"create_directory\",\"path\":\"/a\"}",
        &mut registry,
        handle,
    );
    assert_eq!(status, 0);

    // creating it again: the subsystem's "already exists"
    let again = execute(
        "{\"module\":\"storage\",\"action\":\"create_directory\",\"path\":\"/a\"}",
        &mut registry,
        handle,
    );
    assert_eq!(again, -501);

    // read a non-existent path: PathNotFound, null buffer
    let mut escrow = BufferEscrow::new();
    let mut size: usize = 0;
    let mut capacity: usize = 0;
    let mut result: i32 = 0;
    let token = execute_for_content(
        "{\"module\":\"storage\",\"action\":\"get_directory\",\"path\":\"/a/nope\"}",
        &mut escrow,
        &mut size,
        &mut capacity,
        &mut result,
        &mut registry,
        handle,
    );
    assert_eq!(token, 0);
    assert_eq!(result, -1502);

    // read the directory that does exist and release its buffer
    let token2 = execute_for_content(
        "{\"module\":\"storage\",\"action\":\"get_directory\",\"path\":\"/a\"}",
        &mut escrow,
        &mut size,
        &mut capacity,
        &mut result,
        &mut registry,
        handle,
    );
    assert!(token2 != 0);
    assert_eq!(result, 0);
    let payload =
        String::from_utf8(escrow.slots[(token2 - 1) as usize].as_ref().unwrap().data.clone())
            .unwrap();
    assert_eq!(
        payload,
        "{\"info\":{\"name\":\"a\",\"is_private\":true,\"is_versioned\":false,\
         \"user_metadata\":\"\",\"creation_time_sec\":0,\"creation_time_nsec\":0,\
         \"modification_time_sec\":0,\"modification_time_nsec\":0},\"files\":[],\
         \"sub_directories\":[]}"
    );
    assert_eq!(drop_vector(&mut escrow, token2, size, capacity), 0);

    // destroy the session: clean shutdown, no further callback invocations
    assert!(drop_client(&mut registry, handle).is_ok());
    let after = deliver_network_event(&mut registry, handle, &NetworkEvent::Connected);
    assert!(after.is_empty());
}

fn client_with_service() -> Client {
    let mut client = Client::create_unregistered_client();
    let key = client
        .store
        .create_sub_directory(&root_key(), &"web".to_string(), false, AccessLevel::Private)
        .unwrap();
    client
        .store
        .add_file(&key, &"index.html".to_string(), b"hello world".to_vec())
        .unwrap();
    client.add_service("example".to_string(), "www".to_string(), key);
    client
}

fn packet_of(client: Client) -> ParameterPacket {
    ParameterPacket {
        client,
        app_root_dir_key: None,
        safe_drive_access: false,
        safe_drive_dir_key: None,
    }
}

#[test]
fn get_file_reads_whole_content() {
    let mut packet = packet_of(client_with_service());
    let mut op = GetFile {
        long_name: "example".to_string(),
        service_name: "www".to_string(),
        offset: 0,
        length: -1,
        file_path: "/index.html".to_string(),
        is_path_shared: false,
        include_metadata: false,
    };
    let payload = op.execute(&mut packet).unwrap().unwrap();
    assert_eq!(payload, "{\"content\":\"aGVsbG8gd29ybGQ=\",\"metadata\":null}");

    // a cloned context reads the same file the same way
    let mut copy = packet.clone();
    let payload2 = op.execute(&mut copy).unwrap().unwrap();
    assert_eq!(payload2, payload);
}

#[test]
fn get_file_reads_a_range_and_metadata() {
    let mut packet = packet_of(client_with_service());
    let mut op = GetFile {
        long_name: "example".to_string(),
        service_name: "www".to_string(),
        offset: 6,
        length: 5,
        file_path: "/index.html".to_string(),
        is_path_shared: false,
        include_metadata: true,
    };
    let payload = op.execute(&mut packet).unwrap().unwrap();
    assert_eq!(
        payload,
        "{\"content\":\"d29ybGQ=\",\"metadata\":{\"name\":\"index.html\",\"size\":11,\
         \"user_metadata\":\"\",\"creation_time_sec\":0,\"creation_time_nsec\":0,\
         \"modification_time_sec\":0,\"modification_time_nsec\":0}}"
    );
}

#[test]
fn get_file_error_paths() {
    let mut packet = packet_of(client_with_service());

    let mut bad_range = GetFile {
        long_name: "example".to_string(),
        service_name: "www".to_string(),
        offset: 6,
        length: 6,
        file_path: "/index.html".to_string(),
        is_path_shared: false,
        include_metadata: false,
    };
    assert_eq!(bad_range.execute(&mut packet).unwrap_err().error_code(), -505);

    let mut no_service = GetFile {
        long_name: "example".to_string(),
        service_name: "ftp".to_string(),
        offset: 0,
        length: -1,
        file_path: "/index.html".to_string(),
        is_path_shared: false,
        include_metadata: false,
    };
    assert_eq!(no_service.execute(&mut packet).unwrap_err().error_code(), -1002);

    let mut no_record = GetFile {
        long_name: "elsewhere".to_string(),
        service_name: "www".to_string(),
        offset: 0,
        length: -1,
        file_path: "/index.html".to_string(),
        is_path_shared: false,
        include_metadata: false,
    };
    assert_eq!(no_record.execute(&mut packet).unwrap_err().error_code(), -1001);

    let mut no_file = GetFile {
        long_name: "example".to_string(),
        service_name: "www".to_string(),
        offset: 0,
        length: -1,
        file_path: "/missing.html".to_string(),
        is_path_shared: false,
        include_metadata: false,
    };
    assert_eq!(no_file.execute(&mut packet).unwrap_err().error_code(), -1501);

    let mut empty_path = GetFile {
        long_name: "example".to_string(),
        service_name: "www".to_string(),
        offset: 0,
        length: -1,
        file_path: "///".to_string(),
        is_path_shared: false,
        include_metadata: false,
    };
    assert_eq!(empty_path.execute(&mut packet).unwrap_err().error_code(), -1501);
}

#[test]
fn get_file_through_json_envelope() {
    let mut registry = FfiRegistry::new();
    let client = client_with_service();
    let handle = safe_ffi::cast_to_ffi_handle(&mut registry, client);

    let mut escrow = BufferEscrow::new();
    let mut size: usize = 0;
    let mut capacity: usize = 0;
    let mut result: i32 = 0;
    let token = execute_for_content(
        "{\"module\":\"dns\",\"action\":\"get_file\",\"long_name\":\"example\",\
         \"service_name\":\"www\",\"offset\":0,\"length\":-1,\
         \"file_path\":\"/index.html\",\"is_path_shared\":false,\
         \"include_metadata\":false}",
        &mut escrow,
        &mut size,
        &mut capacity,
        &mut result,
        &mut registry,
        handle,
    );
    assert!(token != 0);
    assert_eq!(result, 0);
    let payload =
        String::from_utf8(escrow.slots[(token - 1) as usize].as_ref().unwrap().data.clone())
            .unwrap();
    assert_eq!(payload, "{\"content\":\"aGVsbG8gd29ybGQ=\",\"metadata\":null}");
    assert_eq!(drop_vector(&mut escrow, token, size, capacity), 0);
    assert!(drop_client(&mut registry, handle).is_ok());
}

#[test]
fn dispatch_on_destroyed_handle_fails() {
    let mut registry = FfiRegistry::new();
    let mut handle: u64 = 0;
    assert_eq!(create_unregistered_client(&mut registry, &mut handle), 0);
    assert!(drop_client(&mut registry, handle).is_ok());

    let status = execute(
        "{\"module\":\"storage\",\"action\":\"create_directory\",\"path\":\"/a\"}",
        &mut registry,
        handle,
    );
    assert!(status < 0);
}

#[test]
fn empty_payload_reports_zero_size_and_capacity() {
    let mut registry = FfiRegistry::new();
    let mut handle: u64 = 0;
    assert_eq!(create_unregistered_client(&mut registry, &mut handle), 0);

    let mut escrow = BufferEscrow::new();
    let mut size: usize = 7;
    let mut capacity: usize = 7;
    let mut result: i32 = 7;
    // creating a directory succeeds and carries no payload
    let token = execute_for_content(
        "{\"module\":\"storage\",\"action\":\"create_directory\",\"path\":\"/empty\"}",
        &mut escrow,
        &mut size,
        &mut capacity,
        &mut result,
        &mut registry,
        handle,
    );
    assert!(token != 0);
    assert_eq!(result, 0);
    assert_eq!(size, 0);
    assert_eq!(capacity, 0);
    assert!(escrow.slots[(token - 1) as usize].as_ref().unwrap().data.is_empty());
    assert_eq!(drop_vector(&mut escrow, token, 0, 0), 0);

    // a failing dispatch leaves the size out-parameters untouched
    let mut size2: usize = 55;
    let mut capacity2: usize = 66;
    let token2 = execute_for_content(
        "{\"module\":\"storage\",\"action\":\"get_directory\",\"path\":\"/nope\"}",
        &mut escrow,
        &mut size2,
        &mut capacity2,
        &mut result,
        &mut registry,
        handle,
    );
    assert_eq!(token2, 0);
    assert_eq!(result, -1502);
    assert_eq!(size2, 55);
    assert_eq!(capacity2, 66);

    assert!(drop_client(&mut registry, handle).is_ok());
}
