//! Run configuration: immutable for the lifetime of a run once loaded.
//!
//! Loading the configuration from disk is I/O and lives outside the library;
//! this module fixes the shape of the configuration and the default value of
//! every field, so that a run started without a configuration file behaves
//! exactly as stated here.

use vstd::prelude::*;
use vstd::string::StringExecFns;

verus! {

/// The run configuration.
///
/// `cps` is the optional admission rate (requests per second); `None`, and
/// likewise an explicit rate of zero, mean unlimited admission and the rate
/// limiter never blocks a worker. `max_connections` and `max_time` are
/// accepted but never consulted by the engine. `thread_count` is the number
/// of workers and `request_timeout_sec` the per-request timeout.
/// `check_cert` is the certificate-validation policy: when set, validation
/// is relaxed and invalid certificates and hostnames are accepted; left
/// unset (the default), certificates are validated. `ui` chooses
/// interactive rendering over headless operation.
pub struct Config {
    pub cps: Option<usize>,
    pub url: String,
    pub max_connections: Option<u32>,
    pub max_time: Option<u32>,
    pub thread_count: usize,
    pub request_timeout_sec: u64,
    pub check_cert: bool,
    pub ui: bool,
}

/// Default admission rate: one request per second.
pub fn get_default_cps() -> (r: Option<usize>)
    ensures
        r == Some(1usize),
{
    Some(1)
}

/// Default target URL.
pub fn get_default_url() -> (r: String)
    ensures
        r@ == "https://10.199.28.159"@,
{
    String::from_str("https://10.199.28.159")
}

/// Default connection cap: none (the field is reserved and unused).
pub fn get_default_max_connections() -> (r: Option<u32>)
    ensures
        r == None::<u32>,
{
    None
}

/// Default run-time cap: none (the field is reserved and unused).
pub fn get_default_max_time() -> (r: Option<u32>)
    ensures
        r == None::<u32>,
{
    None
}

/// Default worker count: a single worker.
pub fn get_default_thread_count() -> (r: usize)
    ensures
        r == 1usize,
{
    1
}

/// Default per-request timeout, in seconds.
pub fn get_default_request_timeout_sec() -> (r: u64)
    ensures
        r == 10u64,
{
    10
}

/// Default certificate-validation policy: validate — the flag that would
/// relax validation stays unset.
pub fn get_default_check_cert() -> (r: bool)
    ensures
        r == false,
{
    false
}

/// Default presentation mode: render the interactive view.
pub fn get_default_ui() -> (r: bool)
    ensures
        r == true,
{
    true
}

impl Config {
    /// The configuration a run gets when no field is set explicitly.
    pub fn all_defaults() -> (r: Config)
        ensures
            r.cps == Some(1usize),
            r.url@ == "https://10.199.28.159"@,
            r.max_connections == None::<u32>,
            r.max_time == None::<u32>,
            r.thread_count == 1usize,
            r.request_timeout_sec == 10u64,
            r.check_cert == false,
            r.ui == true,
    {
        Config {
            cps: get_default_cps(),
            url: get_default_url(),
            max_connections: get_default_max_connections(),
            max_time: get_default_max_time(),
            thread_count: get_default_thread_count(),
            request_timeout_sec: get_default_request_timeout_sec(),
            check_cert: get_default_check_cert(),
            ui: get_default_ui(),
        }
    }
}

} // verus!
