//! A small HTTP/1.1 server core: request decoding, routing decisions,
//! response framing and the job queue that feeds a fixed set of workers.
pub mod text;
pub mod http;
pub mod request;
pub mod response;
pub mod server;
pub mod pool;
pub mod handlers;
