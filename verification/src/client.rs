//! Pure core of the registry client.
//!
//! The client owns the fixed API endpoint and the title cache, and takes
//! every decision about registry data: which build of a listing is newest,
//! which query filters are sent, and when a download response counts as
//! failed.  The driver owns the HTTP agent, performs the requests decided
//! here, decodes the bodies, and hands the plain values back.

use vstd::prelude::*;

use crate::cache::TitleCache;
use crate::registry::{Error, ErrorModel, Version};

verus! {

/// The registry client's state: endpoint and title cache.
pub struct Client {
    /// Root of the registry's HTTP API.
    pub endpoint: String,
    /// Lazily filled identifier-to-title map, shared across all pipelines.
    pub title_cache: TitleCache,
}

impl Client {
    /// A fresh client against the public registry endpoint, with an empty
    /// title cache.
    pub fn new() -> (c: Self)
        ensures
            c.endpoint@ == "https://api.modrinth.com/v2"@,
            c.title_cache.well_formed(),
            c.title_cache@ == Map::<Seq<char>, Seq<char>>::empty(),
    {
        Client {
            endpoint: String::from_str("https://api.modrinth.com/v2"),
            title_cache: TitleCache::new(),
        }
    }

    /// The newest matching build of a fetched listing: element 0, since the
    /// registry returns versions newest-first and its order is trusted.  An
    /// empty listing is no build at all, reported with the resolved title.
    pub fn get_newest_version(&self, versions: &Vec<Version>, title: &String) -> (r: Result<
        Version,
        Error,
    >)
        ensures
            versions@.len() == 0 <==> r is Err,
            r matches Ok(v) ==> versions@.len() > 0 && v@ == versions@[0]@,
            r matches Err(e) ==> e@ == (ErrorModel::NoMatchingVersion { title: title@ }),
    {
        if versions.len() == 0 {
            Err(Error::NoMatchingVersion { title: title.clone() })
        } else {
            Ok(versions[0].clone())
        }
    }
}

/// The `loaders` query filter: the configured loader name passed through
/// exactly as given, wrapped as a one-element JSON array.
pub fn loaders_filter(loader: &String) -> (r: String)
    ensures
        r@ == "[\""@ + loader@ + "\"]"@,
{
    String::from_str("[\"").concat(loader.as_str()).concat("\"]")
}

/// The `game_versions` query filter: the configured platform version passed
/// through exactly as given, wrapped as a one-element JSON array.
pub fn game_versions_filter(game_version: &String) -> (r: String)
    ensures
        r@ == "[\""@ + game_version@ + "\"]"@,
{
    String::from_str("[\"").concat(game_version.as_str()).concat("\"]")
}

/// Whether a download response succeeded: only status 200 is success, and
/// any other status fails the download, keeping the status for the report.
pub fn check_status(status: u16) -> (r: Result<(), Error>)
    ensures
        r is Ok <==> status == 200,
        r matches Err(e) ==> e@ == (ErrorModel::DownloadFailed { status }),
{
    if status == 200 {
        Ok(())
    } else {
        Err(Error::DownloadFailed { status })
    }
}

/// The side file a failed download's body is captured to: named from the
/// registry filename and a timestamp, so that earlier diagnostics are never
/// overwritten and the error payload never lands on a destination path.
pub fn diagnostic_log_name(filename: &String, timestamp: &String) -> (r: String)
    ensures
        r@ == "download_"@ + filename@ + "_"@ + timestamp@ + ".log"@,
{
    String::from_str("download_").concat(filename.as_str()).concat("_").concat(
        timestamp.as_str(),
    ).concat(".log")
}

} // verus!
