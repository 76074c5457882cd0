//! A proof-of-work protected quote service: a 128-bit digest work function,
//! a binary wire protocol with framing, a challenge/verify engine, the
//! server's per-connection session bookkeeping and the client's nonce search.

pub mod client;
pub mod codec;
pub mod hash;
pub mod message;
pub mod pow;
pub mod server;
