//! Bookkeeping for resumable execution contexts: identity tokens that guard
//! against resuming a context twice, the liveness decision of a capture, the
//! wiring of a constructed context, the transfer decision, and the relocation
//! fix-up of raw context storage.

pub mod token;
pub mod frame;
pub mod context;
pub mod capture;
pub mod construct;
pub mod transfer;
