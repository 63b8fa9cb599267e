//! The directories of the program. They follow the platform's conventions and the environment.

use vstd::prelude::*;
use crate::path_text::{below, join_path};
use crate::text::is_digit;

verus! {

pub const QUALIFIER: &'static str = "me";

pub const ORGANIZATION: &'static str = "stegall";

pub const APPLICATION: &'static str = "garlemald-client";

/// The names under which the platform knows the program.
#[derive(Debug, Clone, Copy, PartialEq, Eq)]
pub struct ProjectNames {
    pub qualifier: &'static str,
    pub organization: &'static str,
    pub application: &'static str,
}

/// The names that the platform is asked with for the program's directories.
pub fn project_names() -> (r: ProjectNames)
    ensures
        r.qualifier@ == "me"@,
        r.organization@ == "stegall"@,
        r.application@ == "garlemald-client"@,
{
    ProjectNames { qualifier: QUALIFIER, organization: ORGANIZATION, application: APPLICATION }
}

/// Why a directory cannot be told.
#[derive(Debug, Clone, Copy, PartialEq, Eq, Structural)]
pub enum PathsError {
    /// There is no home directory.
    Unresolved,
    /// The directory's path is not valid UTF-8.
    NotUtf8,
}

impl PathsError {
    /// The text of the error.
    pub fn message(&self) -> (r: String)
        ensures
            r@ == match self {
                PathsError::Unresolved => "could not resolve platform-specific project directories"@,
                PathsError::NotUtf8 => "a project directory is not valid UTF-8"@,
            },
    {
        match self {
            PathsError::Unresolved => {
                "could not resolve platform-specific project directories".to_owned()
            },
            PathsError::NotUtf8 => "a project directory is not valid UTF-8".to_owned(),
        }
    }
}

/// The directories of one program; a directory is `None` where its path is not valid UTF-8.
#[derive(Debug)]
pub struct PlatformDirs {
    pub config: Option<String>,
    pub data: Option<String>,
    pub cache: Option<String>,
}

/// Whether a name is made of small letters, digits and hyphens, so that no platform changes it.
pub open spec fn is_plain_name(name: Seq<char>) -> bool {
    forall|i: int|
        0 <= i < name.len() ==> ('a' <= #[trigger] name[i] <= 'z') || is_digit(name[i]) || name[i]
            == '-'
}

/// Whether the name occurs in the path.
pub open spec fn mentions(path: Seq<char>, name: Seq<char>) -> bool {
    exists|i: int| 0 <= i <= path.len() && name.is_prefix_of(#[trigger] path.skip(i))
}

/// Whether a directory's path, where it is known, holds the name.
pub open spec fn is_named_for(dir: Option<String>, name: Seq<char>) -> bool {
    dir is Some ==> mentions(dir->0@, name)
}

/// The directories that `directories::ProjectDirs::from` gives for the program with the given
/// name, and `None` where it finds no home directory.
///
/// Claimed of them is that each path holds the application's name as it is written, for a name
/// that needs no change. Where they lie, whether they hold the other two names, and whether they
/// can be told at all depends on the platform and on the environment.
#[verifier::external_body]
fn platform_dirs(qualifier: &str, organization: &str, application: &str) -> (r: Option<
    PlatformDirs,
>)
    ensures
        r is Some && is_plain_name(application@) ==> {
            &&& is_named_for(r->0.config, application@)
            &&& is_named_for(r->0.data, application@)
            &&& is_named_for(r->0.cache, application@)
        },
{
    match directories::ProjectDirs::from(qualifier, organization, application) {
        Some(dirs) => Some(
            PlatformDirs {
                config: dirs.config_dir().to_str().map(String::from),
                data: dirs.data_dir().to_str().map(String::from),
                cache: dirs.cache_dir().to_str().map(String::from),
            },
        ),
        None => None,
    }
}

/// One of the program's directories.
#[derive(Debug, Clone, Copy, PartialEq, Eq, Structural)]
pub enum ProjectDir {
    Config,
    Data,
    Cache,
}

impl PlatformDirs {
    /// One of them.
    pub open spec fn at(self, dir: ProjectDir) -> Option<String> {
        match dir {
            ProjectDir::Config => self.config,
            ProjectDir::Data => self.data,
            ProjectDir::Cache => self.cache,
        }
    }
}

/// The directory that is asked for, out of those that the platform gives.
pub fn pick(dirs: Option<PlatformDirs>, dir: ProjectDir) -> (r: Result<String, PathsError>)
    ensures
        match dirs {
            None => r == Err::<String, _>(PathsError::Unresolved),
            Some(known) => match known.at(dir) {
                None => r == Err::<String, _>(PathsError::NotUtf8),
                Some(path) => r == Ok::<_, PathsError>(path),
            },
        },
{
    match dirs {
        None => Err(PathsError::Unresolved),
        Some(known) => {
            let path = match dir {
                ProjectDir::Config => known.config,
                ProjectDir::Data => known.data,
                ProjectDir::Cache => known.cache,
            };
            match path {
                None => Err(PathsError::NotUtf8),
                Some(path) => Ok(path),
            }
        },
    }
}

/// Whether a directory, where it is known, is the program's own: its path holds the program's name.
pub open spec fn is_own_dir(r: Result<String, PathsError>) -> bool {
    r is Ok ==> mentions(r->Ok_0@, APPLICATION@)
}

/// Whether a path, where it is known, is that of the given file or directory below one of the
/// program's own.
pub open spec fn lies_below_own_dir(r: Result<String, PathsError>, leaf: Seq<char>) -> bool {
    r is Ok ==> exists|dir: Seq<char>|
        mentions(dir, APPLICATION@) && r->Ok_0@ == #[trigger] below(dir, leaf)
}

/// A file or directory below one that may not be known.
pub fn within(dir: Result<String, PathsError>, leaf: &str) -> (r: Result<String, PathsError>)
    ensures
        match dir {
            Ok(base) => r is Ok && r->Ok_0@ == below(base@, leaf@),
            Err(e) => r == Err::<String, _>(e),
        },
        is_own_dir(dir) ==> lies_below_own_dir(r, leaf@),
{
    match dir {
        Ok(base) => Ok(join_path(base.as_str(), leaf)),
        Err(e) => Err(e),
    }
}

/// What the program keeps in its directories.
#[derive(Debug, Clone, Copy, PartialEq, Eq, Structural)]
pub enum ProjectPath {
    /// The directory for what the user has chosen.
    Config,
    /// The directory for the program's own data.
    Data,
    /// The directory for what can be made again.
    Cache,
    /// The file with the preferences.
    Preferences,
    /// The file with the user's own servers.
    Servers,
    /// The directory for the state of the torrent session.
    TorrentSession,
    /// The directory into which the patch archive is unpacked.
    PatchStaging,
}

impl ProjectPath {
    /// The directory that it is, or in which it lies.
    pub open spec fn dir(self) -> ProjectDir {
        match self {
            ProjectPath::Config | ProjectPath::Preferences | ProjectPath::Servers => {
                ProjectDir::Config
            },
            ProjectPath::Data => ProjectDir::Data,
            ProjectPath::Cache | ProjectPath::TorrentSession | ProjectPath::PatchStaging => {
                ProjectDir::Cache
            },
        }
    }

    /// Its name in that directory, where it is not the directory itself.
    pub open spec fn leaf(self) -> Option<Seq<char>> {
        match self {
            ProjectPath::Config | ProjectPath::Data | ProjectPath::Cache => None,
            ProjectPath::Preferences => Some("preferences.toml"@),
            ProjectPath::Servers => Some("servers.xml"@),
            ProjectPath::TorrentSession => Some("torrent-session"@),
            ProjectPath::PatchStaging => Some("patch-staging"@),
        }
    }
}

/// Where something lies, given the directories that the platform tells.
pub fn project_path(dirs: Option<PlatformDirs>, what: ProjectPath) -> (r: Result<
    String,
    PathsError,
>)
    ensures
        match dirs {
            None => r == Err::<String, _>(PathsError::Unresolved),
            Some(known) => match known.at(what.dir()) {
                None => r == Err::<String, _>(PathsError::NotUtf8),
                Some(path) => match what.leaf() {
                    None => r == Ok::<_, PathsError>(path),
                    Some(leaf) => r is Ok && r->Ok_0@ == below(path@, leaf),
                },
            },
        },
        dirs is Some && is_named_for(dirs->0.at(what.dir()), APPLICATION@) ==> match what.leaf() {
            None => is_own_dir(r),
            Some(leaf) => lies_below_own_dir(r, leaf),
        },
{
    match what {
        ProjectPath::Config => pick(dirs, ProjectDir::Config),
        ProjectPath::Data => pick(dirs, ProjectDir::Data),
        ProjectPath::Cache => pick(dirs, ProjectDir::Cache),
        ProjectPath::Preferences => within(pick(dirs, ProjectDir::Config), "preferences.toml"),
        ProjectPath::Servers => within(pick(dirs, ProjectDir::Config), "servers.xml"),
        ProjectPath::TorrentSession => within(pick(dirs, ProjectDir::Cache), "torrent-session"),
        ProjectPath::PatchStaging => within(pick(dirs, ProjectDir::Cache), "patch-staging"),
    }
}

/// The directories that the platform tells for [`project_names`].
fn own_dirs() -> (r: Option<PlatformDirs>)
    ensures
        r is Some ==> forall|dir: ProjectDir| #[trigger]
            is_named_for(r->0.at(dir), APPLICATION@),
{
    let names: ProjectNames = project_names();
    proof {
        lemma_application_is_plain();
    }
    platform_dirs(names.qualifier, names.organization, names.application)
}

proof fn lemma_application_is_plain()
    ensures
        is_plain_name(APPLICATION@),
{
    reveal_strlit("garlemald-client");
}

/// The directory for what the user has chosen.
pub fn config_dir() -> (r: Result<String, PathsError>)
    ensures
        is_own_dir(r),
{
    project_path(own_dirs(), ProjectPath::Config)
}

/// The directory for the program's own data.
pub fn data_dir() -> (r: Result<String, PathsError>)
    ensures
        is_own_dir(r),
{
    project_path(own_dirs(), ProjectPath::Data)
}

/// The directory for what can be made again: the torrent session and the staging area.
pub fn cache_dir() -> (r: Result<String, PathsError>)
    ensures
        is_own_dir(r),
{
    project_path(own_dirs(), ProjectPath::Cache)
}

/// The file with the preferences.
pub fn preferences_file_path() -> (r: Result<String, PathsError>)
    ensures
        lies_below_own_dir(r, "preferences.toml"@),
{
    project_path(own_dirs(), ProjectPath::Preferences)
}

/// The file with the user's own servers.
pub fn servers_file_path() -> (r: Result<String, PathsError>)
    ensures
        lies_below_own_dir(r, "servers.xml"@),
{
    project_path(own_dirs(), ProjectPath::Servers)
}

/// The starter configuration beside the program, for the time before there is a preferences file.
pub fn bundled_config_path() -> (r: String)
    ensures
        r@ == "./configs/garlemald-client.toml"@,
{
    "./configs/garlemald-client.toml".to_owned()
}

/// The user's documents, or the data directory where there are none.
pub fn storage_dir(
    documents: Option<Option<String>>,
    data: Result<String, PathsError>,
) -> (r: Result<String, PathsError>)
    ensures
        match documents {
            Some(Some(docs)) => r == Ok::<_, PathsError>(docs),
            Some(None) => r == Err::<String, _>(PathsError::NotUtf8),
            None => r == data,
        },
{
    match documents {
        Some(Some(docs)) => Ok(docs),
        Some(None) => Err(PathsError::NotUtf8),
        None => data,
    }
}

/// The directory under which the torrent puts its files, unless the user has chosen another: the
/// user's documents, or the data directory where there are none. A path that is not valid UTF-8 is
/// given as `Some(None)`.
pub fn default_torrent_storage_dir(documents: Option<Option<String>>) -> (r: Result<
    String,
    PathsError,
>)
    ensures
        match documents {
            Some(Some(docs)) => r == Ok::<_, PathsError>(docs),
            Some(None) => r == Err::<String, _>(PathsError::NotUtf8),
            None => is_own_dir(r),
        },
{
    storage_dir(documents, data_dir())
}

/// The directory for the state of the torrent session.
pub fn torrent_session_dir() -> (r: Result<String, PathsError>)
    ensures
        lies_below_own_dir(r, "torrent-session"@),
{
    project_path(own_dirs(), ProjectPath::TorrentSession)
}

/// The directory into which the patch archive is unpacked.
pub fn patch_staging_dir() -> (r: Result<String, PathsError>)
    ensures
        lies_below_own_dir(r, "patch-staging"@),
{
    project_path(own_dirs(), ProjectPath::PatchStaging)
}

/// Where the program keeps what: choices in the directory for them, data in that for data, and
/// what can be made again in the cache.
pub proof fn law_where_things_are_kept(dirs: PlatformDirs)
    ensures
        dirs.at(ProjectPath::Config.dir()) == dirs.config && ProjectPath::Config.leaf() is None,
        dirs.at(ProjectPath::Data.dir()) == dirs.data && ProjectPath::Data.leaf() is None,
        dirs.at(ProjectPath::Cache.dir()) == dirs.cache && ProjectPath::Cache.leaf() is None,
        dirs.at(ProjectPath::Preferences.dir()) == dirs.config && ProjectPath::Preferences.leaf()
            == Some("preferences.toml"@),
        dirs.at(ProjectPath::Servers.dir()) == dirs.config && ProjectPath::Servers.leaf() == Some(
            "servers.xml"@,
        ),
        dirs.at(ProjectPath::TorrentSession.dir()) == dirs.cache
            && ProjectPath::TorrentSession.leaf() == Some("torrent-session"@),
        dirs.at(ProjectPath::PatchStaging.dir()) == dirs.cache && ProjectPath::PatchStaging.leaf()
            == Some("patch-staging"@),
{
}

/// A path mentions a name exactly where the name stands somewhere in it.
pub proof fn law_what_a_path_mentions(lead: Seq<char>, name: Seq<char>, trail: Seq<char>)
    ensures
        mentions(lead + name + trail, name),
        mentions(lead, name) ==> exists|i: int|
            0 <= i && i + name.len() <= lead.len() && #[trigger] lead.subrange(
                i,
                i + name.len(),
            ) == name,
{
    let whole = lead + name + trail;
    let rest = whole.skip(lead.len() as int);
    assert(rest =~= name + trail);
    assert(name.is_prefix_of(rest));
    if mentions(lead, name) {
        let i = choose|i: int| 0 <= i <= lead.len() && name.is_prefix_of(#[trigger] lead.skip(i));
        assert(lead.subrange(i, i + name.len()) =~= lead.skip(i).subrange(0, name.len() as int));
    }
}

/// One of the program's own directories, and what lies below one, has the program's name in it.
pub proof fn law_own_directories_bear_the_name(r: Result<String, PathsError>, leaf: Seq<char>)
    ensures
        r is Ok && is_own_dir(r) ==> mentions(r->Ok_0@, "garlemald-client"@),
        r is Ok && lies_below_own_dir(r, leaf) ==> exists|dir: Seq<char>|
            mentions(dir, "garlemald-client"@) && r->Ok_0@ == #[trigger] below(dir, leaf),
{
}

} // verus!
