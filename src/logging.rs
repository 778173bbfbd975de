//! Choices behind the logging set-up, as functions of the build.
use vstd::prelude::*;

verus! {

/// Whether verbose logging is on: in builds with the `debug` feature and
/// in debug builds.
pub fn is_verbose_logging(debug_feature: bool, debug_build: bool) -> (r: bool)
    ensures
        r == (debug_feature || debug_build),
{
    debug_feature || debug_build
}

pub open spec fn default_log_level_spec(debug_feature: bool, debug_build: bool) -> Seq<char> {
    if debug_feature {
        "debug,hyper=info,reqwest=info"@
    } else if debug_build {
        "info,hyper=warn,reqwest=warn"@
    } else {
        "warn,error"@
    }
}

/// Log filter used when `RUST_LOG` is not set: everything from `debug` with
/// the `debug` feature (HTTP libraries from `info`), from `info` in debug
/// builds (HTTP libraries from `warn`), warnings and errors otherwise.
pub fn default_log_level(debug_feature: bool, debug_build: bool) -> (r: &'static str)
    ensures
        r@ == default_log_level_spec(debug_feature, debug_build),
{
    if debug_feature {
        "debug,hyper=info,reqwest=info"
    } else if debug_build {
        "info,hyper=warn,reqwest=warn"
    } else {
        "warn,error"
    }
}

/// Memory figures for a crash report. None are collected on any platform,
/// so the report says so.
pub fn get_memory_info() -> (r: Result<String, String>)
    ensures
        r matches Ok(m) && m@ == "Memory info not available"@,
{
    Ok(String::from_str("Memory info not available"))
}

} // verus!
