use vstd::prelude::*;
use crate::error::Error;
use crate::query::string_views;
use crate::structures::{Dependency, Hashes, Version, VersionFile};

verus! {

/// Every key of `present` is one of `allowed`.
pub open spec fn all_known(present: Seq<Seq<char>>, allowed: Seq<Seq<char>>) -> bool {
    forall|i: int| 0 <= i < present.len() ==> allowed.contains(#[trigger] present[i])
}

/// Check the keys of a decoded object against the fields its record has:
/// a key that the record does not know fails the whole decoding.
pub fn check_fields(present: &Vec<String>, allowed: &Vec<String>) -> (r: Result<(), Error>)
    ensures
        r is Ok <==> all_known(string_views(present@), string_views(allowed@)),
        r is Err ==> r == Err::<(), Error>(Error::UnexpectedSchema),
{
    let ghost a = string_views(allowed@);
    let ghost p = string_views(present@);
    let mut i: usize = 0;
    while i < present.len()
        invariant
            i <= present@.len(),
            a == string_views(allowed@),
            p == string_views(present@),
            forall|k: int| 0 <= k < i ==> a.contains(#[trigger] p[k]),
        decreases present@.len() - i,
    {
        let mut found = false;
        let mut j: usize = 0;
        while j < allowed.len()
            invariant
                i < present@.len(),
                j <= allowed@.len(),
                a == string_views(allowed@),
                p == string_views(present@),
                found ==> a.contains(p[i as int]),
                !found ==> forall|k: int| 0 <= k < j ==> a[k] != p[i as int],
            decreases allowed@.len() - j,
        {
            if present[i] == allowed[j] {
                assert(a[j as int] == p[i as int]);
                found = true;
            }
            j += 1;
        }
        if !found {
            assert(!a.contains(p[i as int]));
            assert(!all_known(p, a));
            return Err(Error::UnexpectedSchema);
        }
        i += 1;
    }
    Ok(())
}

/// Decoding is strict: an object holding all of a record's keys passes the
/// check, and one holding only known keys plus a key outside the record's
/// fields fails it.
pub proof fn lemma_unknown_field_rejected(
    present: Seq<Seq<char>>,
    allowed: Seq<Seq<char>>,
    extra: Seq<char>,
)
    requires
        all_known(present, allowed),
        !allowed.contains(extra),
    ensures
        all_known(allowed, allowed),
        !all_known(present.push(extra), allowed),
{
    assert(forall|i: int| 0 <= i < allowed.len() ==> allowed.contains(#[trigger] allowed[i]));
    assert(present.push(extra)[present.len() as int] == extra);
}

fn string_list(names: &Vec<&'static str>) -> (r: Vec<String>)
    ensures
        string_views(r@) == names@.map_values(|s: &'static str| s@),
{
    let mut out: Vec<String> = Vec::new();
    let mut i: usize = 0;
    while i < names.len()
        invariant
            i <= names@.len(),
            out@.len() == i,
            forall|k: int| 0 <= k < i ==> (#[trigger] out@[k])@ == names@[k]@,
        decreases names@.len() - i,
    {
        out.push(String::from_str(names[i]));
        i += 1;
    }
    assert(string_views(out@) =~= names@.map_values(|s: &'static str| s@));
    out
}

/// The keys that a version object may hold.
pub open spec fn version_keys() -> Seq<Seq<char>> {
    seq![
        "id"@,
        "project_id"@,
        "author_id"@,
        "featured"@,
        "name"@,
        "version_number"@,
        "changelog"@,
        "changelog_url"@,
        "date_published"@,
        "downloads"@,
        "version_type"@,
        "files"@,
        "dependencies"@,
        "game_versions"@,
        "loaders"@,
    ]
}

/// The keys that a version file object may hold.
pub open spec fn version_file_keys() -> Seq<Seq<char>> {
    seq!["hashes"@, "url"@, "filename"@, "primary"@]
}

/// The keys that a hashes object may hold.
pub open spec fn hashes_keys() -> Seq<Seq<char>> {
    seq!["sha512"@, "sha1"@]
}

/// The keys that a dependency object may hold.
pub open spec fn dependency_keys() -> Seq<Seq<char>> {
    seq!["version_id"@, "project_id"@, "dependency_type"@]
}

impl Version {
    /// The keys that a version object may hold.
    pub fn field_names() -> (r: Vec<String>)
        ensures
            string_views(r@) == version_keys(),
    {
        let names: Vec<&'static str> = vec![
            "id",
            "project_id",
            "author_id",
            "featured",
            "name",
            "version_number",
            "changelog",
            "changelog_url",
            "date_published",
            "downloads",
            "version_type",
            "files",
            "dependencies",
            "game_versions",
            "loaders",
        ];
        let r = string_list(&names);
        assert(names@.map_values(|s: &'static str| s@) =~= version_keys());
        r
    }
}

impl VersionFile {
    /// The keys that a version file object may hold.
    pub fn field_names() -> (r: Vec<String>)
        ensures
            string_views(r@) == version_file_keys(),
    {
        let names: Vec<&'static str> = vec!["hashes", "url", "filename", "primary"];
        let r = string_list(&names);
        assert(names@.map_values(|s: &'static str| s@) =~= version_file_keys());
        r
    }
}

impl Hashes {
    /// The keys that a hashes object may hold.
    pub fn field_names() -> (r: Vec<String>)
        ensures
            string_views(r@) == hashes_keys(),
    {
        let names: Vec<&'static str> = vec!["sha512", "sha1"];
        let r = string_list(&names);
        assert(names@.map_values(|s: &'static str| s@) =~= hashes_keys());
        r
    }
}

impl Dependency {
    /// The keys that a dependency object may hold.
    pub fn field_names() -> (r: Vec<String>)
        ensures
            string_views(r@) == dependency_keys(),
    {
        let names: Vec<&'static str> = vec!["version_id", "project_id", "dependency_type"];
        let r = string_list(&names);
        assert(names@.map_values(|s: &'static str| s@) =~= dependency_keys());
        r
    }
}

} // verus!
