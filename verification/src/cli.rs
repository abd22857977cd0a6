//! What the command line decides: the log level, the description of the
//! render, the host that serves the files, and the subtitle.

use crate::devices::RenderSpec;
use vstd::prelude::*;
use vstd::string::*;

verus! {

/// The log level where everything is logged that helps to find an error.
pub const LOG_DEBUG: &'static str = "debug";

/// The log level of a quiet run.
pub const LOG_WARN: &'static str = "warn";

/// The log level of an ordinary run.
pub const LOG_INFO: &'static str = "info";

/// The log level of a run: what the variable `CRABDLNA_LOG` holds, if it is
/// set; else `debug` where that was asked for, else `warn` where quiet was asked
/// for, else `info`.
pub open spec fn log_level_of(from_variable: Option<Seq<char>>, debug: bool, quiet: bool) -> Seq<char> {
    match from_variable {
        Some(level) => level,
        None => if debug {
            LOG_DEBUG@
        } else if quiet {
            LOG_WARN@
        } else {
            LOG_INFO@
        },
    }
}

/// Chooses the log level of a run.
pub fn log_level(from_variable: Option<String>, debug: bool, quiet: bool) -> (level: String)
    ensures
        level@ == log_level_of(
            match from_variable {
                Some(level) => Some(level@),
                None => None,
            },
            debug,
            quiet,
        ),
{
    match from_variable {
        Some(level) => level,
        None => if debug {
            String::from_str(LOG_DEBUG)
        } else if quiet {
            String::from_str(LOG_WARN)
        } else {
            String::from_str(LOG_INFO)
        },
    }
}

/// Describes the render to play on: by its location where one is given,
/// else by the query where one is given, else as the first that is found.
pub fn select_render(
    device_url: &Option<String>,
    device_query: &Option<String>,
    timeout: u64,
) -> (render_spec: RenderSpec)
    ensures
        match render_spec {
            RenderSpec::Location(url) => device_url matches Some(given) && url@ == given@,
            RenderSpec::Query(seconds, query) => {
                &&& device_url is None
                &&& seconds == timeout
                &&& device_query matches Some(given)
                &&& query@ == given@
            },
            RenderSpec::First(seconds) => device_url is None && device_query is None && seconds
                == timeout,
        },
{
    if let Some(device_url) = device_url {
        RenderSpec::Location(device_url.clone())
    } else if let Some(device_query) = device_query {
        RenderSpec::Query(timeout, device_query.clone())
    } else {
        RenderSpec::First(timeout)
    }
}

/// The host that serves the files: the one that the user gave, else the
/// local address from which the render is reached.
pub fn serve_host(host: &Option<String>, local_host_ip: &String) -> (host_ip: String)
    ensures
        host_ip@ == match host {
            Some(given) => given@,
            None => local_host_ip@,
        },
{
    match host {
        Some(given) => given.clone(),
        None => local_host_ip.clone(),
    }
}

/// Whether the subtitle is to be inferred from the video: only where
/// subtitles are switched on and the user gave none.
pub fn infers_subtitle(no_subtitle: bool, subtitle: &Option<String>) -> (infers: bool)
    ensures
        infers == (!no_subtitle && subtitle is None),
{
    !no_subtitle && subtitle.is_none()
}

/// The subtitle to serve: none where subtitles are switched off, else the
/// one that the user gave, else the one inferred from the video.
pub fn select_subtitle(
    no_subtitle: bool,
    subtitle: Option<String>,
    inferred: Option<String>,
) -> (selected: Option<String>)
    ensures
        selected == if no_subtitle {
            None
        } else if subtitle is Some {
            subtitle
        } else {
            inferred
        },
{
    if no_subtitle {
        None
    } else {
        match subtitle {
            Some(given) => Some(given),
            None => inferred,
        }
    }
}

} // verus!
