use session_manager::error::Error;
use session_manager::local_file::{checksum, fresh_temp_file_name, temp_file_name};

#[test]
fn checksum_is_the_sha256_of_the_contents() {
    assert_eq!(
        checksum(b"hello", "sha256"),
        Ok(String::from("2cf24dba5fb0a30e26e83b2ac5b9e29e1b161e5c1fa7425e73043362938b9824"))
    );
}

#[test]
fn checksum_of_nothing() {
    assert_eq!(
        checksum(b"", "sha256"),
        Ok(String::from("e3b0c44298fc1c149afbf4c8996fb92427ae41e4649b934ca495991b7852b855"))
    );
}

#[test]
fn checksum_knows_no_other_algorithm() {
    for name in ["md5", "", "sha25", "sha2567", "SHA256", "sha256 ", "sha-256", "sha512"] {
        assert_eq!(checksum(b"hello", name), Err(Error::Unsupported), "{}", name);
    }
}

#[test]
fn temp_file_name_joins_prefix_uuid_and_extension() {
    assert_eq!(
        temp_file_name(0xa1a2a3a4b1b2c1c2d1d2d3d4d5d6d7d8, ".ipk"),
        "webos-dev-tmp-a1a2a3a4-b1b2-c1c2-d1d2-d3d4d5d6d7d8.ipk"
    );
    assert_eq!(temp_file_name(0, ""), "webos-dev-tmp-00000000-0000-0000-0000-000000000000");
}

#[test]
fn fresh_temp_file_name_holds_a_random_uuid() {
    let name = fresh_temp_file_name(".log");
    assert!(name.starts_with("webos-dev-tmp-"));
    assert!(name.ends_with(".log"));
    assert_eq!(name.len(), 14 + 36 + 4);
    let id = uuid::Uuid::parse_str(&name[14..50]).unwrap();
    assert_eq!(id.get_version_num(), 4);
    assert_eq!(temp_file_name(id.as_u128(), ".log"), name);
    assert_ne!(fresh_temp_file_name(".log"), name);
}
