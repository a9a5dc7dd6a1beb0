//! Which URLs the server answers for.

use crate::config::{Config, ConfigView};
use crate::request::{RequestUrl, UrlView};
use crate::text::same_text;
use vstd::prelude::*;
use vstd::string::*;

verus! {

/// Why a well-formed request is outside the server's jurisdiction.
#[derive(Clone, Copy, Debug, PartialEq, Eq, Structural)]
pub enum Refusal {
    /// The URL is no Gemini URL for this server's port: its scheme is
    /// another, it is opaque or has no host, or it names another port.
    NotGemini,
    /// The URL is addressed to a host that is not served.
    ForeignHost,
}

/// The scheme of the protocol.
pub open spec fn gemini_scheme() -> Seq<char> {
    "gemini"@
}

impl Refusal {
    /// The reason that the client is given.
    pub open spec fn reason(self) -> Seq<char> {
        match self {
            Refusal::NotGemini => "Not a gemini request."@,
            Refusal::ForeignHost => "This host is not served here."@,
        }
    }

    /// The reason that the client is given.
    pub fn message(&self) -> (text: &'static str)
        ensures
            text@ == self.reason(),
    {
        match self {
            Refusal::NotGemini => "Not a gemini request.",
            Refusal::ForeignHost => "This host is not served here.",
        }
    }
}

/// Whether `url` is a hierarchical Gemini URL that names no port but `port`:
/// its scheme is `gemini`, it is not opaque, it has a host, and its port, if
/// it names one, is `port`.
pub open spec fn is_gemini_request(url: UrlView, port: u16) -> bool {
    &&& url.scheme == gemini_scheme()
    &&& !url.cannot_be_a_base
    &&& url.host is Some
    &&& url.port matches Some(named) ==> named == port
}

/// The verdict on `url` under `config`.  The checks on scheme, form and port
/// come first; the host is looked up only in a URL that passed them.  Host
/// names are compared as they are spelled, so letter case counts.
pub open spec fn authorization(url: UrlView, config: ConfigView) -> Result<(), Refusal> {
    if !is_gemini_request(url, config.port) {
        Err(Refusal::NotGemini)
    } else if !config.allowed_hosts.contains(url.host->0) {
        Err(Refusal::ForeignHost)
    } else {
        Ok(())
    }
}

/// Decides whether the server answers for `url`.
pub fn authorize(url: &RequestUrl, config: &Config) -> (verdict: Result<(), Refusal>)
    ensures
        verdict == authorization(url@, config@),
{
    if !same_text(url.scheme.as_str(), "gemini") || url.cannot_be_a_base {
        return Err(Refusal::NotGemini);
    }
    match url.port {
        Some(named) => {
            if named != config.port() {
                return Err(Refusal::NotGemini);
            }
        },
        None => {},
    }
    match &url.host {
        None => Err(Refusal::NotGemini),
        Some(host) => {
            if config.allows_host(host.as_str()) {
                Ok(())
            } else {
                Err(Refusal::ForeignHost)
            }
        },
    }
}

} // verus!
