use ferinth::error::{Error, FormatKind};
use ferinth::validate::{validate_id_or_slug, validate_sha1};

#[test]
fn id_or_slug_accepts_id() {
    assert_eq!(validate_id_or_slug("AANobbMI"), Ok(()));
}

#[test]
fn id_or_slug_accepts_slug_with_hyphen() {
    assert_eq!(validate_id_or_slug("fabric-api"), Ok(()));
    assert_eq!(validate_id_or_slug("sodium"), Ok(()));
}

#[test]
fn id_or_slug_accepts_empty() {
    assert_eq!(validate_id_or_slug(""), Ok(()));
}

#[test]
fn id_or_slug_rejects_slash() {
    assert_eq!(
        validate_id_or_slug("AA/obbMI"),
        Err(Error::InvalidFormat(FormatKind::IdOrSlug))
    );
}

#[test]
fn id_or_slug_rejects_space_underscore_and_unicode() {
    for s in ["a b", "a_b", "caf\u{e9}", "x\n", "?q=1"] {
        assert_eq!(
            validate_id_or_slug(s),
            Err(Error::InvalidFormat(FormatKind::IdOrSlug)),
            "{}",
            s
        );
    }
}

#[test]
fn sha1_accepts_lowercase_hex() {
    assert_eq!(
        validate_sha1("795d4c12bffdb1b21eed5ff87c07ce5ca3c0dcbf"),
        Ok(())
    );
}

#[test]
fn sha1_rejects_uppercase() {
    let upper = "795d4c12bffdb1b21eed5ff87c07ce5ca3c0dcbf".to_uppercase();
    assert_eq!(
        validate_sha1(&upper),
        Err(Error::InvalidFormat(FormatKind::Sha1))
    );
}

#[test]
fn sha1_rejects_wrong_length() {
    let h = "795d4c12bffdb1b21eed5ff87c07ce5ca3c0dcbf";
    assert_eq!(
        validate_sha1(&h[..39]),
        Err(Error::InvalidFormat(FormatKind::Sha1))
    );
    let longer = format!("{}0", h);
    assert_eq!(
        validate_sha1(&longer),
        Err(Error::InvalidFormat(FormatKind::Sha1))
    );
    assert_eq!(validate_sha1(""), Err(Error::InvalidFormat(FormatKind::Sha1)));
}

#[test]
fn sha1_rejects_non_hex() {
    assert_eq!(
        validate_sha1("g95d4c12bffdb1b21eed5ff87c07ce5ca3c0dcbf"),
        Err(Error::InvalidFormat(FormatKind::Sha1))
    );
}
