//! Framecast domain library: state machines, resource names, entities,
//! authorization rules and the message builders around them.

pub mod authn;
pub mod crypto;
pub mod error;
pub mod events;
pub mod extract;
pub mod hooks;
pub mod render;
pub mod roles;
pub mod settings;
pub mod ids;
pub mod json;
pub mod llm;
pub mod mail;
pub mod mail_templates;
pub mod permissions;
pub mod state;
pub mod text;
pub mod urn;
pub mod users;
pub mod work;
