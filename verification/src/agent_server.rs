//! The agent server: how the HaaK agent presents itself and connects.
use vstd::prelude::*;

use crate::connection;
use crate::connection::HaakConnection;
use crate::panel::Icon;

verus! {

/// The HaaK agent, served at an HTTP address.
pub struct HaakAgentServer {
    pub url: String,
}

impl View for HaakAgentServer {
    type V = Seq<char>;

    open spec fn view(&self) -> Seq<char> {
        self.url@
    }
}

impl HaakAgentServer {
    /// The agent that the server at `url` runs.
    pub fn new(url: &str) -> (r: HaakAgentServer)
        ensures
            r@ == url@,
    {
        HaakAgentServer { url: url.to_owned() }
    }

    /// The name under which the agent is registered.
    pub fn agent_id(&self) -> (r: &'static str)
        ensures
            r@ == connection::AGENT_ID@,
    {
        connection::AGENT_ID
    }

    /// The agent's icon.
    pub fn logo(&self) -> (r: Icon)
        ensures
            r == Icon::DatabaseZap,
    {
        Icon::DatabaseZap
    }

    /// A connection to the agent's server, without sessions.
    pub fn connect(&self) -> (r: HaakConnection)
        ensures
            r.wf(),
            r@ == (connection::ConnectionView {
                url: self@,
                sessions: Map::empty(),
                receivers: Seq::empty(),
            }),
    {
        HaakConnection::new(self.url.as_str())
    }
}

/// The agent is seen as the address of its server.
pub proof fn law_server_view(server: HaakAgentServer)
    ensures
        server@ == server.url@,
{
}

} // verus!
