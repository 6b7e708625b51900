//! Serialised directory keys and their base64 coat.

use safe_ffi::build_parameter_packet;
use safe_ffi::client::Client;
use safe_ffi::get_parameter_packet;
use safe_ffi::nfs::AccessLevel;
use safe_ffi::nfs::DirectoryKey;
use safe_ffi::serialisation::b64_decode;
use safe_ffi::serialisation::b64_encode;
use safe_ffi::serialisation::deserialise_directory_key;
use safe_ffi::serialisation::serialise_directory_key;
use safe_ffi::RawEnvelope;

#[test]
fn serialised_key_bytes_are_exact() {
    let key = DirectoryKey {
        id: 5,
        type_tag: 7,
        versioned: true,
        access_level: AccessLevel::Public,
    };
    let bytes = serialise_directory_key(&key);
    assert_eq!(
        bytes,
        vec![
            18, 0, 0, 0, // length prefix
            5, 0, 0, 0, 0, 0, 0, 0, // identity
            7, 0, 0, 0, 0, 0, 0, 0, // type tag
            1, // versioned
            1, // public
        ]
    );
}

#[test]
fn key_round_trip_is_byte_identical() {
    let key = DirectoryKey {
        id: 3_000_000_007,
        type_tag: u64::MAX,
        versioned: false,
        access_level: AccessLevel::Private,
    };
    let bytes = serialise_directory_key(&key);
    let decoded = deserialise_directory_key(&bytes).unwrap();
    assert_eq!(decoded, key);
    assert_eq!(serialise_directory_key(&decoded), bytes);
}

#[test]
fn malformed_key_bytes_are_rejected() {
    // too short
    assert!(deserialise_directory_key(&vec![18, 0, 0, 0]).is_err());
    // wrong length prefix
    let mut bytes = serialise_directory_key(&DirectoryKey {
        id: 1,
        type_tag: 0,
        versioned: false,
        access_level: AccessLevel::Private,
    });
    bytes[0] = 17;
    assert!(deserialise_directory_key(&bytes).is_err());
    // flag byte out of range
    let mut bytes2 = serialise_directory_key(&DirectoryKey {
        id: 1,
        type_tag: 0,
        versioned: false,
        access_level: AccessLevel::Private,
    });
    bytes2[20] = 2;
    assert!(deserialise_directory_key(&bytes2).is_err());
}

#[test]
fn base64_coat_round_trips() {
    assert_eq!(b64_encode(&vec![77, 97, 110]), "TWFu");
    assert_eq!(b64_decode("TWFu"), Some(vec![77, 97, 110]));
    assert_eq!(b64_encode(&Vec::new()), "");
    assert!(b64_decode("not valid base64!!").is_none());

    let data = vec![0u8, 255, 17, 42, 99];
    assert_eq!(b64_decode(&b64_encode(&data)), Some(data));
}

#[test]
fn envelope_reference_round_trip_is_byte_identical() {
    let key = DirectoryKey {
        id: 11,
        type_tag: 500,
        versioned: true,
        access_level: AccessLevel::Private,
    };
    let bytes = serialise_directory_key(&key);
    let encoded = b64_encode(&bytes);

    // through the raw envelope fields
    let raw = RawEnvelope {
        module: Some("storage".to_string()),
        action: Some("get_directory".to_string()),
        app_dir_key: Some(encoded.clone()),
        safe_drive_dir_key: None,
        safe_drive_access: None,
    };
    let (_, _, packet) = build_parameter_packet(Client::create_unregistered_client(), &raw)
        .unwrap();
    let decoded = packet.app_root_dir_key.unwrap();
    assert_eq!(serialise_directory_key(&decoded), bytes);

    // and through a real JSON envelope
    let payload = format!(
        "{{\"module\":\"storage\",\"action\":\"get_directory\",\"app_dir_key\":\"{}\"}}",
        encoded
    );
    let (module, action, packet2) =
        get_parameter_packet(Client::create_unregistered_client(), &payload).unwrap();
    assert_eq!(module, "storage");
    assert_eq!(action, "get_directory");
    assert_eq!(serialise_directory_key(&packet2.app_root_dir_key.unwrap()), bytes);
}

#[test]
fn capability_flag_defaults_to_false_without_drive_reference() {
    let raw = RawEnvelope {
        module: Some("storage".to_string()),
        action: Some("get_directory".to_string()),
        app_dir_key: None,
        safe_drive_dir_key: None,
        // supplied, but there is no drive reference: ignored
        safe_drive_access: Some(true),
    };
    let (_, _, packet) = build_parameter_packet(Client::create_unregistered_client(), &raw)
        .unwrap();
    assert!(!packet.safe_drive_access);
    assert!(packet.safe_drive_dir_key.is_none());
}

#[test]
fn missing_envelope_fields_are_parse_errors() {
    let no_module = RawEnvelope {
        module: None,
        action: Some("a".to_string()),
        app_dir_key: None,
        safe_drive_dir_key: None,
        safe_drive_access: None,
    };
    assert!(build_parameter_packet(Client::create_unregistered_client(), &no_module).is_err());

    let key = DirectoryKey {
        id: 0,
        type_tag: 0,
        versioned: false,
        access_level: AccessLevel::Private,
    };
    let encoded = b64_encode(&serialise_directory_key(&key));
    let drive_without_flag = RawEnvelope {
        module: Some("storage".to_string()),
        action: Some("a".to_string()),
        app_dir_key: None,
        safe_drive_dir_key: Some(encoded),
        safe_drive_access: None,
    };
    assert!(
        build_parameter_packet(Client::create_unregistered_client(), &drive_without_flag).is_err()
    );

    let bad_base64 = RawEnvelope {
        module: Some("storage".to_string()),
        action: Some("a".to_string()),
        app_dir_key: Some("!!!".to_string()),
        safe_drive_dir_key: None,
        safe_drive_access: None,
    };
    assert!(build_parameter_packet(Client::create_unregistered_client(), &bad_base64).is_err());
}
