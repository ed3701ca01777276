//! Decode-on-completion stage of a contract-call pipeline.
//!
//! A [`decoder::QueryTokensResult`] wraps either a still-pending byte source
//! together with the decode specification needed to interpret its eventual
//! output, or an outcome that is already known and only has to be handed to
//! the caller exactly once.  An external driver repeatedly asks it to make
//! progress; on each request it either reports "not ready" or produces its
//! final outcome and moves to a terminal state.

pub mod abi;
pub mod decoder;
