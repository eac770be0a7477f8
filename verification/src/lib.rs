//! Following a chain of finalized blocks and replaying each block against one
//! state snapshot.
//!
//! The library holds the decisions of a chain follower as verified state
//! machines: the caller performs the network and execution work that a step
//! asks for and hands the outcome back with the next call.
//!
//! - [`finalized_headers`] is the stream of finalized headers, which recovers
//!   the headers that a subscription skipped; [`ordering`] and [`recovery`]
//!   state what it guarantees.
//! - [`follow_chain`] is the driver that replays the block of each header on
//!   the one snapshot of a run; [`replay_laws`] states what it guarantees.
//! - [`follower`] puts the two together; [`follower_laws`] states what holds
//!   from the stream to the snapshot.
//! - [`randomness_beacon`] is the beacon that puts a randomness seed into
//!   every block.

pub mod chain;
pub mod error;
pub mod finalized_headers;
pub mod follow_chain;
pub mod follower;
pub mod follower_laws;
pub mod ordering;
pub mod randomness_beacon;
pub mod recovery;
pub mod replay_laws;
pub mod session;
pub mod subscription;
pub mod transport;
pub mod weight;
