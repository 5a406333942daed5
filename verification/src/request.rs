//! What a probe asks of the server: the address it goes to and the name the
//! client gives for itself.

use vstd::prelude::*;
use vstd::string::*;

verus! {

/// The address that is probed on `server`: the well-known path for the time,
/// over a secure connection.
pub open spec fn probe_url_of(server: Seq<char>) -> Seq<char> {
    "https://"@ + server + "/.well-known/time"@
}

/// The name that a client of this version gives for itself.
pub open spec fn user_agent_of(version: Seq<char>) -> Seq<char> {
    "httpstime-rs/"@ + version
}

/// The address that is probed on `server`, which is a host name with or
/// without a port.
pub fn probe_url(server: &str) -> (url: String)
    ensures
        url@ == probe_url_of(server@),
{
    let mut url = "https://".to_owned();
    url.append(server);
    url.append("/.well-known/time");
    url
}

/// The name that a client of this version gives for itself.
pub fn user_agent(version: &str) -> (agent: String)
    ensures
        agent@ == user_agent_of(version@),
{
    let mut agent = "httpstime-rs/".to_owned();
    agent.append(version);
    agent
}

} // verus!
