//! A small adapter library for an OpenAI-style chat-completions endpoint
//! that forwards conversations to a Gemini-style upstream provider.
//!
//! The library holds the two pieces of logic such an adapter needs: pulling
//! the provider API key out of an `Authorization` header value, and
//! translating an ordered conversation from the inbound message schema
//! (roles: user, system, assistant) into the upstream schema (roles: user,
//! model), working around the upstream schema's lack of a system role.

pub mod auth;
pub mod handler;
pub mod messages;
