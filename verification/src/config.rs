//! The server configuration that every connection reads.

use crate::text::same_text;
use vstd::prelude::*;
use vstd::string::*;

verus! {

/// The port that is served when none is configured.
pub const DEFAULT_PORT: u16 = 1965;

/// The address that is bound when none is configured.
pub open spec fn default_host() -> Seq<char> {
    "0.0.0.0"@
}

/// What a server serves: built once at startup and never changed after.
///
/// The host that is bound is always among the hosts that are served.
#[derive(Debug)]
pub struct Config {
    host: String,
    port: u16,
    root: String,
    allowed_hosts: Vec<String>,
}

/// A configuration as contracts see it.
pub struct ConfigView {
    /// The host name or address that the listener binds.
    pub host: Seq<char>,
    /// The port that the listener binds, and the only one a URL may name.
    pub port: u16,
    /// The directory under which all documents live.
    pub root: Seq<char>,
    /// The host names that requests may be addressed to.
    pub allowed_hosts: Set<Seq<char>>,
}

impl ConfigView {
    /// The bound host is served.
    pub open spec fn well_formed(self) -> bool {
        self.allowed_hosts.contains(self.host)
    }
}

/// The texts that a list of strings holds.
pub open spec fn texts(list: Seq<String>) -> Set<Seq<char>> {
    Set::new(|text: Seq<char>| exists|i: int| 0 <= i < list.len() && (#[trigger] list[i])@ == text)
}

proof fn lemma_texts_push(list: Seq<String>, last: String)
    ensures
        texts(list.push(last)) == texts(list).insert(last@),
{
    let longer = list.push(last);
    assert forall|text: Seq<char>| texts(longer).contains(text) implies texts(list).insert(
        last@,
    ).contains(text) by {
        let i = choose|i: int| 0 <= i < longer.len() && (#[trigger] longer[i])@ == text;
        if i < list.len() {
            assert(list[i]@ == text);
        }
    }
    assert forall|text: Seq<char>| texts(list).insert(last@).contains(text) implies texts(
        longer,
    ).contains(text) by {
        if text == last@ {
            assert(longer[list.len() as int]@ == text);
        } else {
            let i = choose|i: int| 0 <= i < list.len() && (#[trigger] list[i])@ == text;
            assert(longer[i]@ == text);
        }
    }
    assert(texts(longer) =~= texts(list).insert(last@));
}

impl View for Config {
    type V = ConfigView;

    closed spec fn view(&self) -> ConfigView {
        ConfigView {
            host: self.host@,
            port: self.port,
            root: self.root@,
            allowed_hosts: texts(self.allowed_hosts@),
        }
    }
}

impl Config {
    #[verifier::type_invariant]
    spec fn serves_bound_host(self) -> bool {
        self@.well_formed()
    }

    /// Builds the configuration from what the operator gave: `host` and
    /// `port` default to `0.0.0.0` and `DEFAULT_PORT`, and the hosts served
    /// are `allowed_hosts` together with the host that is bound.
    pub fn new(
        host: Option<String>,
        port: Option<u16>,
        root: String,
        allowed_hosts: Vec<String>,
    ) -> (config: Config)
        ensures
            config@.host == match host {
                Some(host) => host@,
                None => default_host(),
            },
            config@.port == match port {
                Some(port) => port,
                None => DEFAULT_PORT,
            },
            config@.root == root@,
            config@.allowed_hosts == texts(allowed_hosts@).insert(config@.host),
            config@.well_formed(),
    {
        let host = match host {
            Some(host) => host,
            None => "0.0.0.0".to_owned(),
        };
        let port = match port {
            Some(port) => port,
            None => DEFAULT_PORT,
        };
        let mut served = allowed_hosts;
        served.push(host.clone());
        proof {
            lemma_texts_push(allowed_hosts@, host);
        }
        Config { host, port, root, allowed_hosts: served }
    }

    /// The host name or address to bind.
    pub fn host(&self) -> (host: &str)
        ensures
            host@ == self@.host,
            self@.well_formed(),
    {
        proof {
            use_type_invariant(self);
        }
        self.host.as_str()
    }

    /// The port to bind.
    pub fn port(&self) -> (port: u16)
        ensures
            port == self@.port,
    {
        self.port
    }

    /// The document root.
    pub fn root(&self) -> (root: &str)
        ensures
            root@ == self@.root,
    {
        self.root.as_str()
    }

    /// Whether requests to `host` are served.  Host names are compared as
    /// they are spelled: letter case counts.
    pub fn allows_host(&self, host: &str) -> (allowed: bool)
        ensures
            allowed == self@.allowed_hosts.contains(host@),
    {
        let mut i: usize = 0;
        while i < self.allowed_hosts.len()
            invariant
                i <= self.allowed_hosts.len(),
                forall|j: int| 0 <= j < i ==> (#[trigger] self.allowed_hosts@[j])@ != host@,
            decreases self.allowed_hosts.len() - i,
        {
            if same_text(self.allowed_hosts[i].as_str(), host) {
                return true;
            }
            i += 1;
        }
        false
    }
}

} // verus!
