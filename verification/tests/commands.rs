use sshbridge::errors::BridgeError;
use sshbridge::transfer::{
    attr_message, create_dir_ack, delete_dir_ack, delete_file_ack, entry_to_file_entry,
    error_message, file_content_message, list_dir_entries, local_source_check,
    merged_permissions, read_content_check, rename_ack, resolve_upload_target,
    resolved_list_path, save_content_ack, set_permissions_ack, set_permissions_attrs,
    upload_end_ack, RemoteAttrs, RemoteEntry, SftpServerMessage,
};

fn attrs(size: Option<u64>, permissions: Option<u32>, mtime: Option<u32>) -> RemoteAttrs {
    RemoteAttrs {
        size,
        uid: Some(1000),
        user: Some("u".to_string()),
        gid: Some(1000),
        group: Some("g".to_string()),
        permissions,
        atime: None,
        mtime,
    }
}

#[test]
fn set_permissions_keeps_file_type_bits_and_takes_low_bits() {
    // A regular file with mode 644: the request rewrites only the low nine bits.
    let merged = merged_permissions(0o100644, 0o755);
    assert_eq!(merged, 0o100755);
    assert_eq!(merged & 0o170000, 0o100000, "the file-type bits are unchanged");
    assert_eq!(merged & 0o777, 0o755, "the permission bits come from the request");

    // Stray high bits in the request cannot touch the file type.
    assert_eq!(merged_permissions(0o100644, 0o040777), 0o100777);

    // A directory stays a directory.
    assert_eq!(merged_permissions(0o040755, 0o700), 0o040700);
}

#[test]
fn set_permissions_attrs_only_rewrites_the_mode() {
    let a = attrs(Some(10), Some(0o100644), Some(99));
    let b = set_permissions_attrs(&a, 0o600);
    assert_eq!(b.permissions, Some(0o100600));
    assert_eq!(b.size, Some(10));
    assert_eq!(b.mtime, Some(99));
    assert_eq!(b.uid, Some(1000));
    assert_eq!(b.user.as_deref(), Some("u"));
    assert_eq!(b.group.as_deref(), Some("g"));
}

#[test]
fn permissions_ack_echoes_octal() {
    let m = set_permissions_ack(0o755);
    assert_eq!(
        m,
        SftpServerMessage::Success { message: "permissions updated to 755".to_string() }
    );
}

#[test]
fn oversize_read_is_refused_and_carries_no_content() {
    assert!(read_content_check(2 * 1024 * 1024).is_ok());
    let r = read_content_check(2 * 1024 * 1024 + 1);
    assert_eq!(r, Err(BridgeError::Oversize(2 * 1024 * 1024 + 1)));
    let msg = error_message(&BridgeError::Oversize(2 * 1024 * 1024 + 1));
    assert_eq!(
        msg,
        SftpServerMessage::Error { message: "file too large for inline editing".to_string() }
    );
}

#[test]
fn content_message_carries_path_and_text() {
    let m = file_content_message("/etc/motd".to_string(), "hi".to_string());
    assert_eq!(
        m,
        SftpServerMessage::FileContent { path: "/etc/motd".to_string(), content: "hi".to_string() }
    );
}

#[test]
fn listing_maps_attributes_and_editability() {
    let raw = vec![
        RemoteEntry { name: "NOTES.TXT".to_string(), attrs: attrs(Some(12), Some(0o100644), Some(7)) },
        RemoteEntry { name: "src".to_string(), attrs: attrs(None, Some(0o040755), None) },
    ];
    let entries = list_dir_entries(raw);
    assert_eq!(entries.len(), 2);

    let f = &entries[0];
    assert_eq!(f.name, "NOTES.TXT");
    assert!(!f.is_dir);
    assert_eq!(f.size, 12);
    assert_eq!(f.modified, Some(7));
    assert_eq!(f.permissions, Some(0o100644));
    assert!(f.is_content_editable, "a small upper-case .TXT file is editable");

    let d = &entries[1];
    assert_eq!(d.name, "src");
    assert!(d.is_dir);
    assert_eq!(d.size, 0, "an absent size reads as zero");
    assert_eq!(d.modified, None);
    assert!(!d.is_content_editable);
}

#[test]
fn single_entry_mapping_matches() {
    let e = entry_to_file_entry("a.bin".to_string(), &attrs(Some(5), Some(0o100600), None));
    assert_eq!(e.name, "a.bin");
    assert!(!e.is_content_editable, "an unknown extension is not editable");
    assert_eq!(e.uid, Some(1000));
    assert_eq!(e.gid, Some(1000));
}

#[test]
fn listing_path_prefers_the_canonical_one() {
    assert_eq!(
        resolved_list_path(Some("/home/u".to_string()), ".".to_string()),
        "/home/u".to_string()
    );
    assert_eq!(resolved_list_path(None, ".".to_string()), ".".to_string());
}

#[test]
fn attr_response_carries_the_mapped_attributes() {
    let m = attr_message(&attrs(Some(3), Some(0o040777), Some(1)));
    match m {
        SftpServerMessage::FileAttr { attr } => {
            assert_eq!(attr.size, 3);
            assert!(attr.is_dir);
            assert_eq!(attr.modified, Some(1));
            assert_eq!(attr.permissions, Some(0o040777));
        }
        other => panic!("unexpected message: {:?}", other),
    }
}

#[test]
fn upload_target_joins_under_a_remote_directory() {
    let r = resolve_upload_target("/data/", true, "/home/me/report.pdf").unwrap();
    assert_eq!(r, "/data/report.pdf");
    let r2 = resolve_upload_target("/data/file.bin", false, "/home/me/report.pdf").unwrap();
    assert_eq!(r2, "/data/file.bin");
    assert!(resolve_upload_target("/data", true, "/").is_err(), "no usable local base name");
}

#[test]
fn directory_uploads_are_refused() {
    assert!(local_source_check(false).is_ok());
    let r = local_source_check(true);
    assert!(matches!(r, Err(BridgeError::Io(_))));
}

#[test]
fn acknowledgement_texts() {
    assert_eq!(upload_end_ack(), SftpServerMessage::Success { message: "file uploaded".to_string() });
    assert_eq!(delete_file_ack(), SftpServerMessage::Success { message: "file deleted".to_string() });
    assert_eq!(delete_dir_ack(), SftpServerMessage::Success { message: "directory deleted".to_string() });
    assert_eq!(create_dir_ack(), SftpServerMessage::Success { message: "directory created".to_string() });
    assert_eq!(rename_ack(), SftpServerMessage::Success { message: "renamed".to_string() });
    assert_eq!(save_content_ack(), SftpServerMessage::Success { message: "file saved".to_string() });
}

#[test]
fn error_messages_name_the_failure() {
    let m = error_message(&BridgeError::UploadConflict);
    assert_eq!(
        m,
        SftpServerMessage::Error {
            message: "an upload is already active; end or cancel it first".to_string()
        }
    );
    let m2 = error_message(&BridgeError::Io("disk full".to_string()));
    assert_eq!(m2, SftpServerMessage::Error { message: "io error: disk full".to_string() });
    let m3 = error_message(&BridgeError::UploadIdleTimeout);
    assert_eq!(
        m3,
        SftpServerMessage::Error { message: "upload timed out and was cancelled".to_string() }
    );
}
