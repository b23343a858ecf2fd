use vstd::prelude::*;
use crate::status::opt_text;

verus! {

/// The parts of a requested URL that the navigation policy reads: its scheme and
/// its host, both as a parsed URL reports them (lower case).
pub struct NavigationTarget {
    pub scheme: String,
    pub host: Option<String>,
}

/// Schemes that belong to the application itself.
pub open spec fn internal_scheme(scheme: Seq<char>) -> bool {
    scheme == "tauri"@ || scheme == "asset"@ || scheme == "file"@
}

/// Hosts of the embedded backend's own loopback UI.
pub open spec fn loopback_host(host: Option<Seq<char>>) -> bool {
    host == Some("127.0.0.1"@) || host == Some("localhost"@)
}

/// A navigation stays in the app for an internal scheme, or for http(s) to loopback.
pub open spec fn allows_in_app(scheme: Seq<char>, host: Option<Seq<char>>) -> bool {
    internal_scheme(scheme) || ((scheme == "http"@ || scheme == "https"@) && loopback_host(host))
}

fn text_is(a: &String, lit: &str) -> (r: bool)
    ensures
        r == (a@ == lit@),
{
    let l = lit.to_owned();
    a.eq(&l)
}

fn host_is(host: &Option<String>, lit: &str) -> (r: bool)
    ensures
        r == (opt_text(*host) == Some(lit@)),
{
    match host {
        Some(h) => text_is(h, lit),
        None => false,
    }
}

impl NavigationTarget {
    pub fn new(scheme: String, host: Option<String>) -> (r: Self)
        ensures
            r.scheme@ == scheme@,
            opt_text(r.host) == opt_text(host),
    {
        NavigationTarget { scheme, host }
    }
}

/// Whether the URL may load inside the app; otherwise it is opened externally.
pub fn should_allow_internal(target: &NavigationTarget) -> (r: bool)
    ensures
        r == allows_in_app(target.scheme@, opt_text(target.host)),
{
    let s = &target.scheme;
    if text_is(s, "tauri") || text_is(s, "asset") || text_is(s, "file") {
        true
    } else if text_is(s, "http") || text_is(s, "https") {
        host_is(&target.host, "127.0.0.1") || host_is(&target.host, "localhost")
    } else {
        false
    }
}

} // verus!
