//! A policy-chain request pipeline with retry orchestration.
//!
//! The crate models an extensible, ordered sequence of middleware
//! ("policies") through which every outbound request flows, combined with a
//! retry engine that re-drives part of that chain when a transient failure is
//! classified as recoverable.  The same retry engine serves both the stateless
//! HTTP pipeline and a stateful, recoverable protocol receiver; a token cache
//! memoizes credentials obtained through a caller-supplied fetch boundary.

pub mod credential;
pub mod error;
pub mod outside;
pub mod http;
pub mod policies;
pub mod pipeline;
pub mod receiver;
pub mod retry;
pub mod token_cache;
