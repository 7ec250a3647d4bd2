//! The decisions behind the HaaK panels: the chat panel, the ontology browser and the agent
//! connection, kept apart from the window, the socket and the database that they drive.

pub mod agent_server;
pub mod chat;
pub mod connection;
pub mod message;
pub mod ontology;
pub mod panel;
pub mod socket;
pub mod text;
