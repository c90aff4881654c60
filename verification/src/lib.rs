//! A small question-answering service core: a keyword-driven offline
//! responder, a network-backed provider's decision logic, and the factory
//! that selects between them.
//!
//! The network call itself (and the async plumbing around it) lives outside
//! this library; everything here is plain, verified computation.

pub mod config;
pub mod models;
pub mod services;
pub mod text;
