use vstd::prelude::*;

verus! {

/// A project, version or user identifier: a stable ID or a slug.
pub type ID = String;

/// A timestamp as the service writes it (RFC 3339 text).
pub type Datetime = String;

/// One publishable release of a project.
#[derive(Debug, Clone, PartialEq, Eq)]
pub struct Version {
    /// The version's ID
    pub id: ID,
    /// The ID of the project this version is for
    pub project_id: ID,
    /// The ID of the author who published this version
    pub author_id: ID,
    /// Whether the version is 'featured' or not
    pub featured: bool,
    /// The name of this version
    pub name: String,
    /// The version's number. Ideally, this will follow semantic versioning
    pub version_number: String,
    /// The version's changelog
    pub changelog: Option<String>,
    /// A link to the version's changelog; superseded by `changelog`
    pub changelog_url: Option<String>,
    /// When this version was published
    pub date_published: Datetime,
    /// The number of downloads this version has
    pub downloads: usize,
    /// The version's type
    pub version_type: VersionType,
    /// The files available for download
    pub files: Vec<VersionFile>,
    /// This version's dependencies
    pub dependencies: Vec<Dependency>,
    /// The game versions that this version supports
    pub game_versions: Vec<String>,
    /// The mod loaders that this version supports
    pub loaders: Vec<String>,
}

/// How stable a version is.
#[derive(Debug, Clone, Copy, PartialEq, Eq, Structural)]
pub enum VersionType {
    Alpha,
    Beta,
    Release,
}

/// One downloadable artifact of a version.
#[derive(Debug, Clone, PartialEq, Eq)]
pub struct VersionFile {
    /// The file's hashes
    pub hashes: Hashes,
    /// A direct link to the file
    pub url: String,
    /// The file's name
    pub filename: String,
    /// Whether the file is the primary file of its version
    pub primary: bool,
}

/// The digests of a version file.
#[derive(Debug, Clone, PartialEq, Eq)]
pub struct Hashes {
    /// The SHA512 hash of the version file
    pub sha512: Option<String>,
    /// The SHA1 hash of the version file
    pub sha1: Option<String>,
}

/// A dependency which describes what versions are required, break support,
/// or are optional to the version's functionality.
#[derive(Debug, Clone, PartialEq, Eq)]
pub struct Dependency {
    /// The version ID of the dependency
    pub version_id: Option<ID>,
    /// The project ID of the dependency
    pub project_id: Option<ID>,
    /// The relationship this dependency has with the version
    pub dependency_type: DependencyType,
}

/// The kind of relationship a dependency describes.
#[derive(Debug, Clone, Copy, PartialEq, Eq, Structural)]
pub enum DependencyType {
    Required,
    Optional,
    Incompatible,
}

/// Filters for listing the versions of a project; each one is optional.
#[derive(Debug, Clone, PartialEq, Eq)]
pub struct ListVersionsParams {
    /// The mod loaders the versions should support
    pub loaders: Option<Vec<ModLoader>>,
    /// The supported game versions
    pub game_versions: Option<Vec<String>>,
    /// Whether to only show featured / non-featured versions
    pub featured: Option<bool>,
}

/// A mod loader that versions can be filtered by.
#[derive(Debug, Clone, Copy, PartialEq, Eq, Structural)]
pub enum ModLoader {
    Forge,
    Fabric,
}

} // verus!
