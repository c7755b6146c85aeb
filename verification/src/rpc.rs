//! Request dispatch: envelopes, the handler capability, adapters that turn
//! typed functions into handlers, and the router that ties them together.

pub mod adapter;
pub mod envelope;
pub mod handler;
pub mod router;
