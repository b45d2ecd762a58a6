//! Verified core of a collaborative-workspace synchronisation client and server:
//! the decisions taken while syncing over a socket, the state of a storage handle,
//! and the operations on shared document maps.

pub mod message;
pub mod connector;
pub mod client;
pub mod storage;
pub mod doc_ops;
pub mod workspace;
pub mod api;
