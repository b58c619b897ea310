//! Retrieval of historical price-feed updates: the decoding of the provider's
//! binary blobs, the assembly of update records, and the planning of requests.

pub mod codec;
pub mod assemble;
pub mod request;
