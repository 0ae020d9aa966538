//! Where the database lives: the configuration that names its file, and where
//! the configuration itself is kept.

use vstd::prelude::*;

verus! {

/// The name of the database file.
pub const DB_FILE_NAME: &'static str = "chrono-forge.db";

/// The name of the configuration file.
pub const CONFIG_FILE_NAME: &'static str = "config.toml";

/// Whether `s` ends with `suffix`.
pub open spec fn ends_with(s: Seq<char>, suffix: Seq<char>) -> bool {
    s.len() >= suffix.len() && s.subrange(s.len() - suffix.len(), s.len() as int) == suffix
}

/// Whether `s` starts with `prefix`.
pub open spec fn starts_with(s: Seq<char>, prefix: Seq<char>) -> bool {
    s.len() >= prefix.len() && s.take(prefix.len() as int) == prefix
}

/// Whether every character of `name` is a lower-case ASCII letter, a digit,
/// `.` or `-`, and some character is not `.` (so that `name` is neither `.`
/// nor `..`).
pub open spec fn is_plain_file_name(name: Seq<char>) -> bool {
    &&& forall|i: int|
        0 <= i < name.len() ==> {
            let c = #[trigger] name[i];
            ('a' <= c && c <= 'z') || ('0' <= c && c <= '9') || c == '.' || c == '-'
        }
    &&& exists|i: int| 0 <= i < name.len() && name[i] != '.'
}

/// Whether a path has the verbatim prefix `\\?\` of Windows, after which
/// `Path::join` normalizes the whole path.
pub open spec fn is_verbatim_path(path: Seq<char>) -> bool {
    starts_with(path, seq!['\\', '\\', '?', '\\'])
}

/// Adjoins a relative path to a directory path (`std::path::Path::join`), as
/// text.
///
/// Trusted: std documents that `join` adjoins a relative path to the
/// directory, and that an absolute one replaces it; the separator depends on
/// the platform, and after a verbatim prefix (`\\?\`) the whole path is
/// normalized, `.` and `..` removed. The contract says only, for a file name of
/// letters, digits, `.` and `-` that is not `.` or `..`, that the result ends
/// with the file name, and begins with the directory unless the directory has
/// a verbatim prefix; of other paths it says nothing.
#[verifier::external_body]
pub(crate) fn join_path(dir: &str, file_name: &str) -> (r: String)
    ensures
        is_plain_file_name(file_name@) ==> ends_with(r@, file_name@),
        is_plain_file_name(file_name@) && !is_verbatim_path(dir@) ==> starts_with(r@, dir@),
{
    std::path::Path::new(dir).join(file_name).to_string_lossy().into_owned()
}

/// The configuration directory of the program
/// (`directories::ProjectDirs::from("", "", "chrono-forge")`, then `config_dir`,
/// as text).
///
/// Trusted: the result depends on the platform and the environment, so
/// nothing is said of it.
#[verifier::external_body]
fn project_config_dir() -> (r: Option<String>) {
    match directories::ProjectDirs::from("", "", "chrono-forge") {
        Some(d) => Some(d.config_dir().to_string_lossy().into_owned()),
        None => None,
    }
}

/// Where the database is.
pub struct DatabaseConfig {
    pub path: String,
}

/// The program's configuration.
pub struct AppConfig {
    pub database: DatabaseConfig,
}

impl AppConfig {
    /// Whether the database file exists (`std::path::Path::exists`).
    ///
    /// Trusted: the answer depends on the file system, so nothing is said of it.
    #[verifier::external_body]
    pub fn database_exists(&self) -> bool {
        std::path::Path::new(&self.database.path).exists()
    }
}

/// Knows where the configuration file and the default database directory are.
pub struct ConfigHandler {
    config_file: String,
    database_dir: String,
}

impl ConfigHandler {
    /// The handler whose configuration file is `config.toml` in the platform's
    /// configuration directory of the program, and whose default database
    /// directory is `executable_dir`, the directory of the program's executable
    /// (the database lies next to the executable); `None` when the platform has
    /// no configuration directory.
    pub fn new(executable_dir: String) -> (r: Option<Self>)
        ensures
            r matches Some(h) ==> ends_with(h.config_file()@, CONFIG_FILE_NAME@)
                && h.database_dir() == executable_dir,
    {
        match project_config_dir() {
            Some(config_dir) => Some(Self::from_dirs(config_dir, executable_dir)),
            None => None,
        }
    }

    /// The handler whose configuration file is `config.toml` in `config_dir`
    /// and whose default database directory is `database_dir`.
    pub fn from_dirs(config_dir: String, database_dir: String) -> (r: Self)
        ensures
            !is_verbatim_path(config_dir@) ==> starts_with(r.config_file()@, config_dir@),
            ends_with(r.config_file()@, CONFIG_FILE_NAME@),
            r.database_dir() == database_dir,
    {
        proof {
            reveal_strlit("config.toml");
            assert(CONFIG_FILE_NAME@[0] != '.');
        }
        let config_file = join_path(config_dir.as_str(), CONFIG_FILE_NAME);
        ConfigHandler { config_file, database_dir }
    }

    pub closed spec fn config_file(&self) -> String {
        self.config_file
    }

    pub closed spec fn database_dir(&self) -> String {
        self.database_dir
    }

    /// The path of the configuration file.
    pub fn config_file_path(&self) -> (r: &str)
        ensures
            r@ == self.config_file()@,
    {
        self.config_file.as_str()
    }

    /// The path of the database file in a directory.
    pub fn database_file_in(&self, path: &str) -> (r: String)
        ensures
            !is_verbatim_path(path@) ==> starts_with(r@, path@),
            ends_with(r@, DB_FILE_NAME@),
    {
        proof {
            reveal_strlit("chrono-forge.db");
            assert(DB_FILE_NAME@[0] != '.');
        }
        join_path(path, DB_FILE_NAME)
    }

    /// The configuration whose database is in the default database directory,
    /// next to the executable.
    pub fn create_new_default_config(&self) -> (r: AppConfig)
        ensures
            !is_verbatim_path(self.database_dir()@) ==> starts_with(r.database.path@, self.database_dir()@),
            ends_with(r.database.path@, DB_FILE_NAME@),
    {
        self.create_new_config(self.database_dir.clone())
    }

    /// The configuration whose database is the database file in `path`.
    pub fn create_new_config(&self, path: String) -> (r: AppConfig)
        ensures
            !is_verbatim_path(path@) ==> starts_with(r.database.path@, path@),
            ends_with(r.database.path@, DB_FILE_NAME@),
    {
        AppConfig { database: DatabaseConfig { path: self.database_file_in(path.as_str()) } }
    }

    /// Points the configuration at another database file.
    pub fn relink_database(&self, app_config: &mut AppConfig, path: String)
        ensures
            final(app_config).database.path == path,
    {
        app_config.database.path = path;
    }
}

} // verus!
