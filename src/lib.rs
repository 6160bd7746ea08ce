//! Client-side core of a bridge to a data-availability node: the namespace
//! codec, extraction of blocks and blobs from decoded chain data, the
//! finality watcher's published state, the connection state machine, and the
//! client's per-attempt decisions (retry on transport failure, fail on a
//! structurally invalid block).
pub mod client;
pub mod connector;
pub mod extract;
pub mod finality;
pub mod namespace;

pub use client::{Attempt, Client, ClientError, SubmitBlobCall, TransportError};
pub use extract::{no_tree_root, Block, Blob, FetchError, TreeRoot};
pub use namespace::Namespace;
