use auto_updater::install::{
    has_zip_signature, parent_dir, reply_leaves_staging_file, staging_path_for, validate_body,
    validate_download, ArtifactKind, DownloadReply, InstallError, MAX_ARCHIVE_BYTES,
    MIN_ARCHIVE_BYTES,
};

fn pk() -> Vec<u8> {
    vec![0x50, 0x4B, 0x03, 0x04]
}

#[test]
fn zip_signature_is_pk_3_4() {
    assert!(has_zip_signature(b"PK\x03\x04"));
    assert!(has_zip_signature(b"PK\x03\x04rest of the archive"));
    assert!(!has_zip_signature(b"PK\x03"));
    assert!(!has_zip_signature(b""));
    assert!(!has_zip_signature(b"PK\x05\x06"));
    assert!(!has_zip_signature(b"<html>not found</html>"));
    assert!(!has_zip_signature(b"\x00PK\x03\x04"));
}

#[test]
fn an_empty_body_is_rejected_for_every_kind() {
    assert_eq!(validate_body(ArtifactKind::Binary, 0, b""), Err(InstallError::Empty));
    assert_eq!(validate_body(ArtifactKind::Archive, 0, b""), Err(InstallError::Empty));
    assert_eq!(validate_body(ArtifactKind::Archive, 0, &pk()), Err(InstallError::Empty));
}

#[test]
fn a_binary_needs_no_signature_and_no_size() {
    assert_eq!(validate_body(ArtifactKind::Binary, 1, b"M"), Ok(()));
    assert_eq!(validate_body(ArtifactKind::Binary, u64::MAX, b"MZ\x90\x00"), Ok(()));
}

#[test]
fn an_archive_has_a_size_envelope() {
    assert_eq!(MIN_ARCHIVE_BYTES, 1000);
    assert_eq!(MAX_ARCHIVE_BYTES, 100_000_000);
    assert_eq!(validate_body(ArtifactKind::Archive, 999, &pk()), Err(InstallError::SizeOutOfBounds));
    assert_eq!(validate_body(ArtifactKind::Archive, 1000, &pk()), Ok(()));
    assert_eq!(validate_body(ArtifactKind::Archive, 100_000_000, &pk()), Ok(()));
    assert_eq!(
        validate_body(ArtifactKind::Archive, 100_000_001, &pk()),
        Err(InstallError::SizeOutOfBounds)
    );
    assert_eq!(
        validate_body(ArtifactKind::Archive, 5, b"<html"),
        Err(InstallError::SizeOutOfBounds)
    );
}

#[test]
fn an_archive_needs_the_signature() {
    assert_eq!(
        validate_body(ArtifactKind::Archive, 5000, b"<html>"),
        Err(InstallError::InvalidFormat)
    );
    assert_eq!(validate_body(ArtifactKind::Archive, 5000, b"PK"), Err(InstallError::InvalidFormat));
    assert_eq!(validate_body(ArtifactKind::Archive, 5000, b""), Err(InstallError::InvalidFormat));
}

#[test]
fn each_download_reply_has_its_verdict() {
    assert_eq!(
        validate_download(ArtifactKind::Binary, &DownloadReply::Unreachable),
        Err(InstallError::Network)
    );
    assert_eq!(
        validate_download(ArtifactKind::Binary, &DownloadReply::Refused { status: 404 }),
        Err(InstallError::HttpStatus)
    );
    assert_eq!(
        validate_download(ArtifactKind::Binary, &DownloadReply::WriteFailed),
        Err(InstallError::Io)
    );
    assert_eq!(
        validate_download(
            ArtifactKind::Binary,
            &DownloadReply::Stored { len: 0, head: vec![] }
        ),
        Err(InstallError::Empty)
    );
    assert_eq!(
        validate_download(
            ArtifactKind::Archive,
            &DownloadReply::Stored { len: 2000, head: pk() }
        ),
        Ok(())
    );
    assert_eq!(
        validate_download(
            ArtifactKind::Archive,
            &DownloadReply::Stored { len: 2000, head: b"GIF8".to_vec() }
        ),
        Err(InstallError::InvalidFormat)
    );
}

#[test]
fn only_written_replies_leave_a_staging_file() {
    assert!(!reply_leaves_staging_file(&DownloadReply::Unreachable));
    assert!(!reply_leaves_staging_file(&DownloadReply::Refused { status: 500 }));
    assert!(reply_leaves_staging_file(&DownloadReply::WriteFailed));
    assert!(reply_leaves_staging_file(&DownloadReply::Stored { len: 0, head: vec![] }));
}

#[test]
fn staging_file_replaces_the_extension_of_the_last_component() {
    assert_eq!(
        staging_path_for("garrysmod/lua/bin/gmsv_gmod_integration_linux64.dll"),
        "garrysmod/lua/bin/gmsv_gmod_integration_linux64.tmp"
    );
    assert_eq!(staging_path_for("gmod-integration.zip"), "gmod-integration.tmp");
    assert_eq!(staging_path_for("a.b.c"), "a.b.tmp");
    assert_eq!(staging_path_for("dir.d/file.x"), "dir.d/file.tmp");
    assert_eq!(staging_path_for("dir\\file.x"), "dir\\file.tmp");
    assert_eq!(staging_path_for("é.dll"), "é.tmp");
}

#[test]
fn staging_file_gets_an_extension_where_there_is_none() {
    assert_eq!(staging_path_for("a"), "a.tmp");
    assert_eq!(staging_path_for("dir.d/file"), "dir.d/file.tmp");
    assert_eq!(staging_path_for(".hidden"), ".hidden.tmp");
    assert_eq!(staging_path_for("dir/.hidden"), "dir/.hidden.tmp");
    assert_eq!(staging_path_for(""), ".tmp");
    assert_eq!(staging_path_for("dir/"), "dir/.tmp");
    assert_eq!(staging_path_for("name."), "name.tmp");
}

#[test]
fn staging_file_is_never_the_destination() {
    assert_eq!(staging_path_for("a.tmp"), "a.tmp.tmp");
    assert_eq!(staging_path_for("dir/file.tmp"), "dir/file.tmp.tmp");
    assert_eq!(staging_path_for("a.TMP"), "a.TMP.tmp");
    assert_eq!(staging_path_for("a.Tmp"), "a.Tmp.tmp");
    assert_eq!(staging_path_for("a.tmpx"), "a.tmp");
    assert_eq!(staging_path_for("a.tm"), "a.tmp");
    assert_eq!(staging_path_for(".tmp"), ".tmp.tmp");
    for destination in ["", "a", "a.tmp", "a.tmp.tmp", "x/y.tmp", ".tmp", "a.dll", "a.", "a/"] {
        assert_ne!(staging_path_for(destination), destination);
        assert_eq!(parent_dir(&staging_path_for(destination)), parent_dir(destination));
    }
}

#[test]
fn parent_dir_is_what_stands_before_the_last_separator() {
    assert_eq!(parent_dir("garrysmod/lua/bin/gmsv_x_linux64.dll"), "garrysmod/lua/bin");
    assert_eq!(parent_dir("gmod-integration.zip"), "");
    assert_eq!(parent_dir("a/b/"), "a/b");
    assert_eq!(parent_dir("/x"), "");
    assert_eq!(parent_dir("dir\\file"), "dir");
    assert_eq!(parent_dir(""), "");
    assert_eq!(parent_dir("é/ü"), "é");
}

#[test]
fn staging_file_lies_beside_its_destination() {
    let destination = "garrysmod/lua/bin/gmsv_x_linux64.dll";
    assert_eq!(parent_dir(&staging_path_for(destination)), parent_dir(destination));
}
