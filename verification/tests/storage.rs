//! The storage model: walking, reading and listing directories and files.

use safe_ffi::buffer::BufferEscrow;
use safe_ffi::client::Client;
use safe_ffi::helper::convert_to_dir_response;
use safe_ffi::helper::get_dir_response;
use safe_ffi::helper::get_final_subdirectory;
use safe_ffi::implementation::get_file_content;
use safe_ffi::implementation::get_file_size;
use safe_ffi::implementation::Reader;
use safe_ffi::nfs::AccessLevel;
use safe_ffi::nfs::DirectoryKey;
use safe_ffi::serialisation::deserialise_directory_key;
use safe_ffi::FfiRegistry;

fn root_key() -> DirectoryKey {
    DirectoryKey {
        id: 0,
        type_tag: 0,
        versioned: false,
        access_level: AccessLevel::Private,
    }
}

fn sample_client() -> (Client, DirectoryKey, DirectoryKey) {
    let mut client = Client::create_unregistered_client();
    let a = client
        .store
        .create_sub_directory(&root_key(), &"a".to_string(), false, AccessLevel::Private)
        .unwrap();
    let b = client
        .store
        .create_sub_directory(&a, &"b".to_string(), true, AccessLevel::Public)
        .unwrap();
    client
        .store
        .add_file(&b, &"notes.txt".to_string(), b"abcdef".to_vec())
        .unwrap();
    (client, a, b)
}

#[test]
fn walk_resolves_nested_path() {
    let (client, _a, b) = sample_client();
    let tokens = vec!["a".to_string(), "b".to_string()];
    let listing = get_final_subdirectory(&client, &tokens, None).unwrap();
    assert_eq!(listing.metadata.key, b);
    assert_eq!(listing.metadata.name, "b");

    let missing = vec!["a".to_string(), "zzz".to_string()];
    match get_final_subdirectory(&client, &missing, None) {
        Err(e) => assert_eq!(e.error_code(), -1502),
        Ok(_) => panic!("missing path resolved"),
    }

    // walking from an explicit, valid starting key
    let (client2, a2, b2) = sample_client();
    let from_a = get_final_subdirectory(&client2, &vec!["b".to_string()], Some(&a2)).unwrap();
    assert_eq!(from_a.metadata.key, b2);

    // a starting key the store does not hold
    let stale = DirectoryKey {
        id: 99,
        type_tag: 0,
        versioned: false,
        access_level: AccessLevel::Private,
    };
    match get_final_subdirectory(&client2, &Vec::new(), Some(&stale)) {
        Err(e) => assert_eq!(e.error_code(), -502),
        Ok(_) => panic!("stale key resolved"),
    }
}

#[test]
fn file_size_and_content() {
    let (client, _a, b) = sample_client();
    let listing = client.store.get(&b).unwrap();

    assert_eq!(get_file_size(&client, &"notes.txt".to_string(), listing).unwrap(), 6);
    assert_eq!(
        get_file_content(&client, &"notes.txt".to_string(), listing).unwrap(),
        b"abcdef".to_vec()
    );

    let err = get_file_size(&client, &"other.txt".to_string(), listing).unwrap_err();
    assert_eq!(err.error_code(), -1503);
}

#[test]
fn reader_ranges() {
    let (client, _a, b) = sample_client();
    let listing = client.store.get(&b).unwrap();
    let file = listing.find_file(&"notes.txt".to_string()).unwrap();
    let mut reader = Reader { file };
    assert_eq!(reader.size(), 6);
    assert_eq!(reader.read(2, 3).unwrap(), b"cde".to_vec());
    assert_eq!(reader.read(0, 6).unwrap(), b"abcdef".to_vec());
    assert_eq!(reader.read(6, 0).unwrap(), Vec::<u8>::new());
    assert_eq!(reader.read(5, 2).unwrap_err().error_code(), -505);
}

#[test]
fn listing_flattens_to_response() {
    let (client, a, _b) = sample_client();
    let response = get_dir_response(&client, &a).unwrap();
    assert_eq!(response.info.name, "a");
    assert!(response.info.is_private);
    assert!(!response.info.is_versioned);
    assert_eq!(response.sub_directories.len(), 1);
    assert_eq!(response.sub_directories[0].name, "b");
    assert!(!response.sub_directories[0].is_private);
    assert!(response.sub_directories[0].is_versioned);
    assert_eq!(response.files.len(), 0);

    let listing = client.store.get(&a).unwrap();
    let direct = convert_to_dir_response(listing);
    assert_eq!(direct.info.name, response.info.name);

    let stale = DirectoryKey {
        id: 77,
        type_tag: 0,
        versioned: false,
        access_level: AccessLevel::Private,
    };
    match get_dir_response(&client, &stale) {
        Err(e) => assert_eq!(e.error_code(), -502),
        Ok(_) => panic!("stale key listed"),
    }
}

#[test]
fn safe_drive_key_is_stable_across_calls() {
    let mut client = Client::create_unregistered_client();
    let first = safe_ffi::helper::get_safe_drive_key(&mut client).unwrap();
    let second = safe_ffi::helper::get_safe_drive_key(&mut client).unwrap();
    assert_eq!(first, second);
    assert_eq!(
        client.store.get(&first).unwrap().metadata.name,
        "SAFEDrive"
    );
}

#[test]
fn app_dir_key_is_named_after_the_app() {
    let mut client = Client::create_unregistered_client();
    let key = safe_ffi::launcher_config_handler::get_app_dir_key(
        &mut client,
        &"mail".to_string(),
        &"app-id".to_string(),
        &"vendor".to_string(),
    )
    .unwrap();
    assert_eq!(client.store.get(&key).unwrap().metadata.name, "mail");

    // a different identifier or vendor still finds the same directory
    let again = safe_ffi::launcher_config_handler::get_app_dir_key(
        &mut client,
        &"mail".to_string(),
        &"other-id".to_string(),
        &"other-vendor".to_string(),
    )
    .unwrap();
    assert_eq!(key, again);
}

#[test]
fn served_keys_cross_the_boundary_serialised() {
    let mut registry = FfiRegistry::new();
    let mut handle: u64 = 0;
    assert_eq!(safe_ffi::create_unregistered_client(&mut registry, &mut handle), 0);

    let mut escrow = BufferEscrow::new();
    let mut size: usize = 0;
    let mut capacity: usize = 0;
    let mut result: i32 = 0;

    let token = safe_ffi::get_safe_drive_key(
        &mut escrow,
        &mut size,
        &mut capacity,
        &mut result,
        &mut registry,
        handle,
    );
    assert!(token != 0);
    assert_eq!(result, 0);
    let bytes = escrow.slots[(token - 1) as usize].as_ref().unwrap().data.clone();
    assert_eq!(bytes.len(), 22);
    let drive_key = deserialise_directory_key(&bytes).unwrap();
    assert_eq!(drive_key.type_tag, 0);
    assert_eq!(safe_ffi::drop_vector(&mut escrow, token, size, capacity), 0);

    let token2 = safe_ffi::get_app_dir_key(
        "mail",
        "app-id",
        "vendor",
        &mut escrow,
        &mut size,
        &mut capacity,
        &mut result,
        &mut registry,
        handle,
    );
    assert!(token2 != 0);
    assert_eq!(result, 0);
    let bytes2 = escrow.slots[(token2 - 1) as usize].as_ref().unwrap().data.clone();
    let app_key = deserialise_directory_key(&bytes2).unwrap();
    assert!(app_key != drive_key);
    assert_eq!(safe_ffi::drop_vector(&mut escrow, token2, size, capacity), 0);

    assert!(safe_ffi::drop_client(&mut registry, handle).is_ok());
}

#[test]
fn duplicate_directory_name_is_refused_by_the_store() {
    let mut client = Client::create_unregistered_client();
    let first = client
        .store
        .create_sub_directory(&root_key(), &"dup".to_string(), false, AccessLevel::Private)
        .unwrap();
    assert_eq!(first.id, 1);
    let err = client
        .store
        .create_sub_directory(&root_key(), &"dup".to_string(), false, AccessLevel::Private)
        .unwrap_err();
    assert_eq!(err.error_code(), -501);

    client
        .store
        .add_file(&first, &"f".to_string(), vec![1, 2, 3])
        .unwrap();
    let err2 = client
        .store
        .add_file(&first, &"f".to_string(), vec![4])
        .unwrap_err();
    assert_eq!(err2.error_code(), -503);
}
