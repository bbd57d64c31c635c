//! From the provider's answer to the descriptor of the watched build.

use vstd::prelude::*;
use crate::decimal::{parse_i64, parse_i64_spec};
use crate::descriptor::{BuildInfo, BuildInfoView};
use crate::response::{SteamResponse, SteamResponseView};
use crate::settings::{Settings, SettingsView};

verus! {

/// Why a cycle brought no descriptor.
#[derive(Clone, Copy, Debug, PartialEq, Eq, Structural)]
pub enum FetchError {
    /// The provider could not be reached.
    Transport,
    /// The answer has not the expected structure.
    Malformed,
    /// The answer does not name the application.
    MissingApp,
    /// The application has no branch of the name asked for.
    MissingBranch,
    /// The build id is no integer.
    BadBuildId,
    /// The time of the last update is no integer.
    BadTimestamp,
}

/// The descriptor that an answer holds for the watched branch, or the
/// first thing that is wrong with the answer.
pub open spec fn build_from_response(settings: SettingsView, resp: SteamResponseView) -> Result<
    BuildInfoView,
    FetchError,
> {
    if !resp.data.contains_key(settings.app_id) {
        Err(FetchError::MissingApp)
    } else if !resp.data[settings.app_id].contains_key(settings.branch) {
        Err(FetchError::MissingBranch)
    } else {
        let branch = resp.data[settings.app_id][settings.branch];
        match (parse_i64_spec(branch.buildid), parse_i64_spec(branch.timeupdated)) {
            (None, _) => Err(FetchError::BadBuildId),
            (Some(_), None) => Err(FetchError::BadTimestamp),
            (Some(build_id), Some(timestamp)) => Ok(
                BuildInfoView {
                    branch: settings.branch,
                    build_id: build_id as int,
                    timestamp: timestamp as int,
                    description: branch.description,
                },
            ),
        }
    }
}

impl FetchError {
    /// A short name of the kind of error, for a diagnostic.
    pub fn kind(&self) -> (name: &'static str)
        ensures
            name@ == match *self {
                FetchError::Transport => "transport error"@,
                FetchError::Malformed => "malformed response"@,
                FetchError::MissingApp => "missing application"@,
                FetchError::MissingBranch => "missing branch"@,
                FetchError::BadBuildId => "build id is not an integer"@,
                FetchError::BadTimestamp => "timestamp is not an integer"@,
            },
    {
        match self {
            FetchError::Transport => "transport error",
            FetchError::Malformed => "malformed response",
            FetchError::MissingApp => "missing application",
            FetchError::MissingBranch => "missing branch",
            FetchError::BadBuildId => "build id is not an integer",
            FetchError::BadTimestamp => "timestamp is not an integer",
        }
    }
}

/// Finds the watched branch in the provider's answer and reads its
/// descriptor. Nothing is recovered on the way: a missing application,
/// a missing branch, a build id or a time that is no integer each come
/// back as their own error, in this order.
pub fn get_build_info(settings: &Settings, resp: &SteamResponse) -> (r: Result<
    BuildInfo,
    FetchError,
>)
    ensures
        match r {
            Ok(b) => build_from_response(settings@, resp@) == Ok::<BuildInfoView, FetchError>(b@),
            Err(e) => build_from_response(settings@, resp@) == Err::<BuildInfoView, FetchError>(e),
        },
{
    let app_data = match resp.app(settings.app_id()) {
        Some(data) => data,
        None => {
            return Err(FetchError::MissingApp);
        },
    };
    let branch = match app_data.depots().branch(settings.branch()) {
        Some(branch) => branch,
        None => {
            return Err(FetchError::MissingBranch);
        },
    };
    let build_id = match parse_i64(branch.buildid()) {
        Some(id) => id,
        None => {
            return Err(FetchError::BadBuildId);
        },
    };
    let timestamp = match parse_i64(branch.timeupdated()) {
        Some(seconds) => seconds,
        None => {
            return Err(FetchError::BadTimestamp);
        },
    };
    let description = branch.description().to_owned();
    Ok(BuildInfo::new(settings.branch().to_owned(), build_id, timestamp, description))
}

} // verus!
