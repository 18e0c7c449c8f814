//! Where the tool keeps its files.
//!
//! The data directory is chosen once at startup, from the command line or
//! below the user's home directory, and handed to whatever needs a file from
//! it: the OAuth client secret, the token cache and the request identifier
//! ledger.

use crate::error::ConfigError;
use std::path::PathBuf;
use vstd::prelude::*;

verus! {

/// The directory below the user's home that is used when none is given.
pub const DEFAULT_DATA_DIR: &'static str = ".meet_data/";

/// The OAuth client secret, as downloaded from the provider.
pub const CLIENT_SECRET_FILE: &'static str = "credentials.json";

/// Where the OAuth library keeps what it needs to renew the access token.
pub const TOKEN_CACHE_FILE: &'static str = "tokencache.json";

/// The request identifier ledger.
pub const LEDGER_FILE: &'static str = "request_id_cache";

/// A path of the file system. Nothing is said of what it holds.
#[verifier::external_type_specification]
#[verifier::external_body]
pub struct ExPathBuf(PathBuf);

/// `PathBuf::clone` returns a path equal to the one it was given.
pub assume_specification[ <PathBuf as Clone>::clone ](path: &PathBuf) -> (copy: PathBuf)
    ensures
        copy == *path,
;

/// The directory that holds the tool's files.
#[derive(Debug, Clone, PartialEq, Eq)]
pub struct DataPath {
    pub dir: PathBuf,
}

/// The files that the tool keeps in its data directory.
#[derive(Debug, Clone, Copy, PartialEq, Eq)]
pub enum DataFile {
    ClientSecret,
    TokenCache,
    Ledger,
}

impl DataFile {
    /// The name of the file within the data directory.
    pub open spec fn name(self) -> Seq<char> {
        match self {
            DataFile::ClientSecret => CLIENT_SECRET_FILE@,
            DataFile::TokenCache => TOKEN_CACHE_FILE@,
            DataFile::Ledger => LEDGER_FILE@,
        }
    }

    /// The name of the file within the data directory.
    pub fn file_name(self) -> (name: &'static str)
        ensures
            name@ == self.name(),
    {
        match self {
            DataFile::ClientSecret => CLIENT_SECRET_FILE,
            DataFile::TokenCache => TOKEN_CACHE_FILE,
            DataFile::Ledger => LEDGER_FILE,
        }
    }
}

/// Makes `new_path` the data directory.
pub fn set_data_path(config: &mut DataPath, new_path: PathBuf)
    ensures
        final(config).dir == new_path,
{
    config.dir = new_path;
}

/// The data directory.
pub fn get_data_path(config: &DataPath) -> (path: PathBuf)
    ensures
        path == config.dir,
{
    config.dir.clone()
}

/// The data directory of a run: the one given on the command line, else
/// the default one, else none.
pub open spec fn choose_data_path_spec(given: Option<PathBuf>, default: Option<PathBuf>) -> Result<
    DataPath,
    ConfigError,
> {
    match (given, default) {
        (Some(dir), _) => Ok(DataPath { dir }),
        (None, Some(dir)) => Ok(DataPath { dir }),
        (None, None) => Err(ConfigError::NoDataDirectory),
    }
}

/// Settles the data directory at startup. `given` is the directory named on
/// the command line. `default` is `DEFAULT_DATA_DIR` below the user's home
/// directory, if the user has one.
pub fn choose_data_path(given: Option<PathBuf>, default: Option<PathBuf>) -> (config: Result<
    DataPath,
    ConfigError,
>)
    ensures
        config == choose_data_path_spec(given, default),
{
    match given {
        Some(dir) => Ok(DataPath { dir }),
        None => match default {
            Some(dir) => Ok(DataPath { dir }),
            None => Err(ConfigError::NoDataDirectory),
        },
    }
}

} // verus!
