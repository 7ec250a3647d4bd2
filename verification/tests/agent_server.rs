use haak::agent_server::HaakAgentServer;
use haak::panel::Icon;

#[test]
fn agent_server_presents_itself() {
    let server = HaakAgentServer::new("http://127.0.0.1:5201");
    assert_eq!(server.url, "http://127.0.0.1:5201");
    assert_eq!(server.agent_id(), "haak");
    assert_eq!(server.logo(), Icon::DatabaseZap);
}

#[test]
fn connect_keeps_the_address() {
    let connection = HaakAgentServer::new("https://haak.dev").connect();
    assert_eq!(connection.url, "https://haak.dev");
    assert_eq!(connection.socket_url(), "wss://haak.dev/ws/session");
    assert!(connection.sessions.is_empty());
    assert_eq!(connection.agent_id(), "haak");
    assert_eq!(connection.telemetry_id(), "haak");
}
