use ferinth::endpoint::{ApiConfig, API_URL_BASE};
use ferinth::error::{Error, FormatKind};
use ferinth::structures::{ListVersionsParams, ModLoader};

#[test]
fn config_defaults() {
    let c = ApiConfig::new("ferinth-tests");
    assert_eq!(c.base_url, API_URL_BASE);
    assert_eq!(c.user_agent, "ferinth-tests");
    assert_eq!(c.rate_limit.threshold, 1);
    assert_eq!(c.rate_limit.default_wait_secs, 60);
}

#[test]
fn list_versions_url_without_filters() {
    let c = ApiConfig::new("t");
    assert_eq!(
        c.list_versions_url("AANobbMI", None).unwrap(),
        "https://api.modrinth.com/v2/project/AANobbMI/version"
    );
}

#[test]
fn list_versions_url_with_loader_filter() {
    let c = ApiConfig::new("t");
    let p = ListVersionsParams {
        loaders: Some(vec![ModLoader::Fabric]),
        game_versions: None,
        featured: None,
    };
    assert_eq!(
        c.list_versions_url("AANobbMI", Some(&p)).unwrap(),
        "https://api.modrinth.com/v2/project/AANobbMI/version?loaders=%5B%22fabric%22%5D"
    );
}

#[test]
fn list_versions_url_with_all_filters() {
    let c = ApiConfig::new("t");
    let p = ListVersionsParams {
        loaders: Some(vec![ModLoader::Forge]),
        game_versions: Some(vec!["1.20".to_string(), "1.20.1".to_string()]),
        featured: Some(true),
    };
    assert_eq!(
        c.list_versions_url("sodium", Some(&p)).unwrap(),
        "https://api.modrinth.com/v2/project/sodium/version?loaders=%5B%22forge%22%5D\
         &game_versions=%5B%221.20%22%2C%221.20.1%22%5D&featured=true"
    );
}

#[test]
fn list_versions_url_featured_false() {
    let c = ApiConfig::new("t");
    let p = ListVersionsParams {
        loaders: None,
        game_versions: None,
        featured: Some(false),
    };
    assert_eq!(
        c.list_versions_url("AANobbMI", Some(&p)).unwrap(),
        "https://api.modrinth.com/v2/project/AANobbMI/version?featured=false"
    );
}

#[test]
fn list_versions_url_rejects_bad_id() {
    let c = ApiConfig::new("t");
    assert_eq!(
        c.list_versions_url("AA/obbMI", None),
        Err(Error::InvalidFormat(FormatKind::IdOrSlug))
    );
}

#[test]
fn url_building_is_deterministic() {
    let c = ApiConfig::new("t");
    let p = ListVersionsParams {
        loaders: Some(vec![ModLoader::Fabric]),
        game_versions: Some(vec!["1.20".to_string()]),
        featured: Some(true),
    };
    let a = c.list_versions_url("AANobbMI", Some(&p));
    let b = c.list_versions_url("AANobbMI", Some(&p.clone()));
    assert_eq!(a, b);
    assert_eq!(c.version_url("xuWxRZPd"), c.version_url("xuWxRZPd"));
}

#[test]
fn version_url_joins_id() {
    let c = ApiConfig::new("t");
    assert_eq!(
        c.version_url("xuWxRZPd").unwrap(),
        "https://api.modrinth.com/v2/version/xuWxRZPd"
    );
}

#[test]
fn version_url_rejects_bad_id() {
    let c = ApiConfig::new("t");
    assert_eq!(
        c.version_url("../x"),
        Err(Error::InvalidFormat(FormatKind::IdOrSlug))
    );
}

#[test]
fn version_from_file_hash_url_joins_hash() {
    let c = ApiConfig::new("t");
    assert_eq!(
        c.version_from_file_hash_url("795d4c12bffdb1b21eed5ff87c07ce5ca3c0dcbf")
            .unwrap(),
        "https://api.modrinth.com/v2/version_file/795d4c12bffdb1b21eed5ff87c07ce5ca3c0dcbf"
    );
}

#[test]
fn version_from_file_hash_url_rejects_uppercase() {
    let c = ApiConfig::new("t");
    assert_eq!(
        c.version_from_file_hash_url("795D4C12BFFDB1B21EED5FF87C07CE5CA3C0DCBF"),
        Err(Error::InvalidFormat(FormatKind::Sha1))
    );
}

#[test]
fn other_base_url_is_used() {
    let c = ApiConfig::with_base_url("http://localhost:8080/api/", "t");
    assert_eq!(
        c.version_url("abc").unwrap(),
        "http://localhost:8080/api/version/abc"
    );
}

#[test]
fn malformed_base_url_is_an_error() {
    let c = ApiConfig::with_base_url("not a url", "t");
    assert_eq!(c.version_url("abc"), Err(Error::InvalidUrl));
    assert_eq!(c.list_versions_url("abc", None), Err(Error::InvalidUrl));
}
