//! Peer-to-peer node: the remotes it knows and the decisions of its reactor
//! handler.
pub mod node;
pub mod remotes;

pub use node::{InboundOutcome, Metrics, NodeAction, NodeController, NodeCtl, NodeService};
pub use remotes::{DisconnectReason, Inbound, Outbound, Remote, Remotes, ResId};
