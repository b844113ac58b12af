//! A body-type-agnostic HTTP interception pipeline.
//!
//! An ordered chain of handlers inspects and transforms requests and
//! responses. The chain only sequences: it decides which handler is consulted
//! next, when the request phase ends early, and what becomes of a failure. It
//! never looks inside a message, so two very different hosts, a transparent
//! (intercepting) proxy and an explicit (reverse) proxy, can drive the same
//! chain.
//!
//! Every decision is a function from plain values to plain values, so a host
//! whose handlers suspend can interleave its own waiting between two steps.

pub mod cmd;
pub mod proxy;
