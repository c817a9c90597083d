//! A federation relay's core logic: the in-memory projection of relay
//! policy, the channel dispatch that keeps it coherent across replicas, the
//! inbox decisions and the retry policy of the delivery queue.

pub mod cache;
pub mod domains;
pub mod ids;
pub mod inbox;
pub mod jobs;
pub mod notify;
pub mod replica;
pub mod state;
pub mod signing;
