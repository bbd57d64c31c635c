//! Watches the published build of one branch of an application and
//! keeps the two most recent distinct builds.

pub mod decimal;
pub mod descriptor;
pub mod fetch;
pub mod history;
pub mod response;
pub mod settings;
pub mod watch;

pub use descriptor::{default_description, BuildInfo};
pub use fetch::{get_build_info, FetchError};
pub use history::{State, Transition};
pub use response::{default_timeupload, Branch, Data, Depots, SteamResponse};
pub use settings::{ConfigError, Settings, DEFAULT_APP_ID};
pub use watch::{
    check_started_line, cycle_banner, step, Action, FailurePolicy, POLL_INTERVAL_SECS,
};
