//! Client side of client-server protocols.
pub mod client;
pub mod rpc;
pub mod rpc_pub;

pub use client::{
    notify_delegate, prepare_command, ClientAction, ClientCommand, ClientDelegate, ClientNotice, DelegateCall,
    ClientService, ConnectionDelegate, OnDisconnect,
};
pub use rpc::{RpcDelegate, RpcDispatch, RpcReply, RpcReplyOutcome, RpcService};
pub use rpc_pub::{RpcPubDelegate, RpcPubDispatch, RpcPubOutcome, RpcPubId, RpcPubMsg, RpcPubService, CLIENT_MSG_ID_PUB, CLIENT_MSG_ID_RPC};
