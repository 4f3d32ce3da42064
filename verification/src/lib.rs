//! Invitation-gated onboarding for a chat platform: registration invitations,
//! vertical-specific greetings, studio provisioning for new clients and the
//! request handling rules of the routes that expose them.

pub mod error;
pub mod text;
pub mod invitations;
pub mod greetings;
pub mod reference;
pub mod models;
pub mod admin;
pub mod users;
pub mod provision;
pub mod onboard;
pub mod servers;
pub mod mongo;
