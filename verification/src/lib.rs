//! Core of a transparent forwarding proxy for LLM provider APIs.
//!
//! The proxy sits between a local client and one of two upstream providers.
//! It decides which upstream a request belongs to, captures and bounds the
//! inbound body, sanitizes the header set, relays the upstream response
//! (streamed or buffered), and maps every internal failure to an HTTP-level
//! outcome. Everything here is pure decision logic over plain values; the
//! surrounding application supplies the network transport.

pub mod bytestr;
pub mod capture;
pub mod config;
pub mod diag;
pub mod engine;
pub mod error;
pub mod events;
pub mod headers;
pub mod numeric;
pub mod pipeline;
pub mod relay;
pub mod resolver;
pub mod terminal;
