use netservices::client::rpc::{ParseReplyError, RpcReplyError};
use netservices::client::rpc_pub::{ParseRpcPubError, RpcPubError};
use netservices::client::{
    RpcDispatch, RpcPubDispatch, RpcPubId, RpcPubMsg, RpcPubService, RpcReply, RpcService,
    CLIENT_MSG_ID_PUB, CLIENT_MSG_ID_RPC,
};

#[test]
fn rpc_reply_is_id_then_payload() {
    let data = RpcReply { id: 0x0102, payload: vec![7, 8] }.into_vec();
    assert_eq!(data, vec![0x02, 0x01, 0, 0, 0, 0, 0, 0, 7, 8]);
}

#[test]
fn rpc_reply_roundtrip() {
    let data = RpcReply { id: u64::MAX - 5, payload: vec![1, 2, 3] }.into_vec();
    let reply = RpcReply::try_from(data).unwrap();
    assert_eq!(reply.id, u64::MAX - 5);
    assert_eq!(reply.payload, vec![1, 2, 3]);
}

#[test]
fn rpc_reply_with_empty_payload() {
    let reply = RpcReply::try_from(vec![5, 0, 0, 0, 0, 0, 0, 0]).unwrap();
    assert_eq!(reply.id, 5);
    assert!(reply.payload.is_empty());
}

#[test]
fn rpc_reply_empty_message() {
    assert_eq!(RpcReply::try_from(vec![]).unwrap_err(), ParseReplyError::Empty);
}

#[test]
fn rpc_reply_short_message() {
    assert_eq!(RpcReply::try_from(vec![1, 2, 3, 4, 5, 6, 7]).unwrap_err(), ParseReplyError::NoId);
}

#[test]
fn rpc_pub_rpc_message_layout() {
    let data = RpcPubMsg { id: RpcPubId::Rpc(3), payload: vec![9] }.into_vec();
    assert_eq!(data, vec![CLIENT_MSG_ID_RPC, 3, 0, 0, 0, 0, 0, 0, 0, 9]);
}

#[test]
fn rpc_pub_pub_message_layout() {
    let data = RpcPubMsg { id: RpcPubId::Pub(0x0a0b), payload: vec![1, 2] }.into_vec();
    assert_eq!(data, vec![CLIENT_MSG_ID_PUB, 0x0b, 0x0a, 1, 2]);
}

#[test]
fn rpc_pub_roundtrip() {
    for id in [RpcPubId::Rpc(77), RpcPubId::Pub(65535), RpcPubId::Pub(0)] {
        let data = RpcPubMsg { id, payload: vec![4, 5, 6] }.into_vec();
        let msg = RpcPubMsg::try_from(data).unwrap();
        assert_eq!(msg.id, id);
        assert_eq!(msg.payload, vec![4, 5, 6]);
    }
}

#[test]
fn rpc_pub_errors() {
    assert_eq!(RpcPubMsg::try_from(vec![]).unwrap_err(), ParseRpcPubError::Empty);
    assert_eq!(
        RpcPubMsg::try_from(vec![CLIENT_MSG_ID_RPC, 1, 2, 3, 4, 5, 6, 7]).unwrap_err(),
        ParseRpcPubError::NoId
    );
    assert_eq!(RpcPubMsg::try_from(vec![CLIENT_MSG_ID_PUB, 1]).unwrap_err(), ParseRpcPubError::NoId);
    assert_eq!(RpcPubMsg::try_from(vec![0x42, 1, 2]).unwrap_err(), ParseRpcPubError::InvalidTag(0x42));
}

#[test]
fn rpc_service_assigns_fresh_ids() {
    let mut service: RpcService<&'static str> = RpcService::new();
    let first = service.before_send(vec![0xAA], "first");
    let second = service.before_send(vec![0xBB, 0xCC], "second");
    assert_eq!(first, vec![0, 0, 0, 0, 0, 0, 0, 0, 0xAA]);
    assert_eq!(second, vec![1, 0, 0, 0, 0, 0, 0, 0, 0xBB, 0xCC]);
}

#[test]
fn rpc_service_matches_reply_once() {
    let mut service: RpcService<&'static str> = RpcService::new();
    let _ = service.before_send(vec![], "a");
    let _ = service.before_send(vec![], "b");
    match service.on_reply(RpcReply { id: 1, payload: vec![3] }) {
        RpcDispatch::Matched(id, cb, payload) => {
            assert_eq!(id, 1);
            assert_eq!(cb, "b");
            assert_eq!(payload, vec![3]);
        }
        RpcDispatch::Mismatching(_) => panic!("reply should match"),
    }
    match service.on_reply(RpcReply { id: 1, payload: vec![4] }) {
        RpcDispatch::Mismatching(RpcReplyError::MismatchingReply(id, payload)) => {
            assert_eq!(id, 1);
            assert_eq!(payload, vec![4]);
        }
        _ => panic!("repeated reply must not match"),
    }
}

#[test]
fn rpc_service_reports_unparsable() {
    let service: RpcService<()> = RpcService::new();
    match service.on_reply_unparsable(ParseReplyError::NoId) {
        RpcReplyError::UnparsableMsg(e) => assert_eq!(e, ParseReplyError::NoId),
        _ => panic!("wrong error"),
    }
    match service.on_reply_payload_unparsable(9, "bad".to_string()) {
        RpcReplyError::UnparsableReply(id, reason) => {
            assert_eq!(id, 9);
            assert_eq!(reason, "bad");
        }
        _ => panic!("wrong error"),
    }
}

#[test]
fn rpc_pub_service_dispatch() {
    let mut service: RpcPubService<u32> = RpcPubService::new();
    let req = service.before_send(vec![1], 10);
    assert_eq!(req, vec![0, 0, 0, 0, 0, 0, 0, 0, 1]);
    match service.on_reply(RpcPubMsg { id: RpcPubId::Pub(5), payload: vec![2] }) {
        RpcPubDispatch::Pub(topic, payload) => {
            assert_eq!(topic, 5);
            assert_eq!(payload, vec![2]);
        }
        _ => panic!("expected a pub message"),
    }
    match service.on_reply(RpcPubMsg { id: RpcPubId::Rpc(0), payload: vec![3] }) {
        RpcPubDispatch::Rpc(RpcDispatch::Matched(id, cb, payload)) => {
            assert_eq!(id, 0);
            assert_eq!(cb, 10);
            assert_eq!(payload, vec![3]);
        }
        _ => panic!("expected the matched reply"),
    }
    match service.on_reply_unparsable(ParseRpcPubError::InvalidTag(3)) {
        RpcPubError::UnparsableMsg(e) => assert_eq!(e, ParseRpcPubError::InvalidTag(3)),
        _ => panic!("wrong error"),
    }
    match service.on_pub_unparsable(4, "x".to_string()) {
        RpcPubError::UnparsablePub(topic, reason) => {
            assert_eq!(topic, 4);
            assert_eq!(reason, "x");
        }
        _ => panic!("wrong error"),
    }
}

#[test]
fn rpc_reply_encoding_is_canonical() {
    let data = vec![9, 0, 0, 0, 0, 0, 0, 1, 0xAA, 0xBB];
    let reply = RpcReply::try_from(data.clone()).unwrap();
    assert_eq!(reply.id, 0x0100_0000_0000_0009);
    assert_eq!(reply.into_vec(), data);
}

#[test]
fn rpc_pub_encoding_is_canonical() {
    let data = vec![CLIENT_MSG_ID_PUB, 0x34, 0x12, 7];
    let msg = RpcPubMsg::try_from(data.clone()).unwrap();
    assert_eq!(msg.id, RpcPubId::Pub(0x1234));
    assert_eq!(msg.into_vec(), data);
}

#[test]
fn rpc_service_last_id_counts_requests() {
    let mut service: RpcService<()> = RpcService::new();
    assert_eq!(service.last_id(), 0);
    let _ = service.before_send(vec![], ());
    let _ = service.before_send(vec![], ());
    assert_eq!(service.last_id(), 2);
    let mut pub_service: RpcPubService<()> = RpcPubService::new();
    let _ = pub_service.before_send(vec![], ());
    assert_eq!(pub_service.last_id(), 1);
}
