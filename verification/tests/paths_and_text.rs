use one_archive::mod_database::constants::DatabaseTableName;
use one_archive::mod_database::database::{
    normalize_directory_path, parent_directory_path, status_update_sql,
};
use one_archive::mod_archive::utils_archive::{
    archive_file_name, files_archived_message, new_archive_file_name,
};
use one_archive::text::{push_decimal, str_eq, to_hex_lower};
use one_archive::utils::{calculate_sha256, FileHasher};

fn norm(p: &str) -> Option<String> {
    normalize_directory_path(&Some(p.to_string()))
}

#[test]
fn normalize_replaces_backslashes_and_trims() {
    assert_eq!(norm("a\\b\\c"), Some("a/b/c".to_string()));
    assert_eq!(norm("a/b/"), Some("a/b".to_string()));
    assert_eq!(norm("a/b///"), Some("a/b".to_string()));
    assert_eq!(norm("a\\b\\"), Some("a/b".to_string()));
    assert_eq!(norm("///"), None);
    assert_eq!(norm("\\/"), None);
    assert_eq!(norm(""), None);
    assert_eq!(norm("/a"), Some("/a".to_string()));
    assert_eq!(normalize_directory_path(&None), None);
}

#[test]
fn normalize_is_idempotent_on_examples() {
    for p in ["a\\b\\", "x//", "\\\\", "plain", "中文/目录/"] {
        let once = norm(p);
        let twice = normalize_directory_path(&once);
        assert_eq!(once, twice);
    }
}

#[test]
fn parent_paths() {
    assert_eq!(parent_directory_path(""), None);
    assert_eq!(parent_directory_path("a"), Some(String::new()));
    assert_eq!(parent_directory_path("a/b"), Some("a".to_string()));
    assert_eq!(parent_directory_path("a/b/c/"), Some("a/b".to_string()));
    assert_eq!(parent_directory_path("a\\b\\c"), Some("a/b".to_string()));
    assert_eq!(parent_directory_path("/"), None);
    assert_eq!(parent_directory_path("\\"), None);
    assert_eq!(parent_directory_path("/a"), Some(String::new()));
}

#[test]
fn status_update_statement() {
    assert_eq!(
        status_update_sql(DatabaseTableName::InfoFile),
        "UPDATE info_file SET status = ?1, updated_at = strftime('%s', 'now') WHERE id = ?2"
    );
    assert_eq!(
        status_update_sql(DatabaseTableName::InfoRoot),
        "UPDATE info_root SET status = ?1, updated_at = strftime('%s', 'now') WHERE id = ?2"
    );
}

#[test]
fn decimal_and_hex_text() {
    let mut s = String::from("n=");
    push_decimal(&mut s, 0);
    push_decimal(&mut s, 1234567890);
    assert_eq!(s, "n=01234567890");
    assert_eq!(to_hex_lower(&[0x00, 0x0f, 0xa5, 0xff]), "000fa5ff");
    assert_eq!(to_hex_lower(&[]), "");
    assert!(str_eq("归档", "归档"));
    assert!(!str_eq("a", "b"));
}

#[test]
fn sha256_of_known_inputs() {
    assert_eq!(
        calculate_sha256(b"abc"),
        "ba7816bf8f01cfea414140de5dae2223b00361a396177a9cb410ff61f20015ad"
    );
    assert_eq!(
        calculate_sha256(b""),
        "e3b0c44298fc1c149afbf4c8996fb92427ae41e4649b934ca495991b7852b855"
    );
    assert_eq!(calculate_sha256(b"hello").len(), 64);
}

#[test]
fn archive_volume_names() {
    assert_eq!(archive_file_name("backup", "20240102030405", 7), "backup_20240102030405_7.tar");
    assert_eq!(archive_file_name("", "t", 0), "_t_0.tar");
    let name = new_archive_file_name("vol", 12).expect("the clock reads after 1970");
    assert!(name.starts_with("vol_"));
    assert!(name.ends_with("_12.tar"));
    let stamp = &name[4..name.len() - 7];
    assert_eq!(stamp.len(), 14);
    assert!(stamp.chars().all(|c| c.is_ascii_digit()));
}

#[test]
fn archived_files_message() {
    assert_eq!(files_archived_message(3, 10), "已完成 3/10 个文件的归档");
    assert_eq!(files_archived_message(0, 0), "已完成 0/0 个文件的归档");
}

#[test]
fn hashing_in_pieces_equals_hashing_at_once() {
    let mut h = FileHasher::new();
    h.update(b"a");
    h.update(b"");
    h.update(b"bc");
    assert_eq!(h.finalize_hex(), "ba7816bf8f01cfea414140de5dae2223b00361a396177a9cb410ff61f20015ad");
    assert_eq!(FileHasher::new().finalize_hex(), calculate_sha256(b""));
    let data: Vec<u8> = (0..200_000u32).map(|i| (i % 251) as u8).collect();
    let mut h = FileHasher::new();
    for block in data.chunks(65536) {
        h.update(block);
    }
    assert_eq!(h.finalize_hex(), calculate_sha256(&data));
}
