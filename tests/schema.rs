use ferinth::error::Error;
use ferinth::schema::check_fields;
use ferinth::structures::{Dependency, Hashes, Version, VersionFile};

fn strings(v: &[&str]) -> Vec<String> {
    v.iter().map(|s| s.to_string()).collect()
}

#[test]
fn version_keys_pass() {
    let keys = Version::field_names();
    assert_eq!(keys.len(), 15);
    assert_eq!(check_fields(&keys, &Version::field_names()), Ok(()));
}

#[test]
fn version_keys_with_unknown_field_fail() {
    let mut keys = Version::field_names();
    keys.push("surprise".to_string());
    assert_eq!(
        check_fields(&keys, &Version::field_names()),
        Err(Error::UnexpectedSchema)
    );
}

#[test]
fn missing_keys_are_not_this_checks_concern() {
    let keys = strings(&["loaders", "id"]);
    assert_eq!(check_fields(&keys, &Version::field_names()), Ok(()));
    assert_eq!(check_fields(&Vec::new(), &Version::field_names()), Ok(()));
}

#[test]
fn nested_record_keys() {
    assert_eq!(
        check_fields(
            &strings(&["url", "filename", "primary", "hashes"]),
            &VersionFile::field_names()
        ),
        Ok(())
    );
    assert_eq!(
        check_fields(&strings(&["sha1", "sha256"]), &Hashes::field_names()),
        Err(Error::UnexpectedSchema)
    );
    assert_eq!(
        check_fields(
            &strings(&["project_id", "dependency_type", "file_name"]),
            &Dependency::field_names()
        ),
        Err(Error::UnexpectedSchema)
    );
}

#[test]
fn keys_compare_exactly() {
    assert_eq!(
        check_fields(&strings(&["ID"]), &Version::field_names()),
        Err(Error::UnexpectedSchema)
    );
}
