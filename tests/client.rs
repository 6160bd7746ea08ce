use sugondat_shim::connector::{Connector, EnsureStep};
use sugondat_shim::extract::{
    block_from_parts, extract_blobs, extract_timestamp, tree_root, Call, DigestItem, Extrinsic,
    Header,
};
use sugondat_shim::finality::{wait_until_finalized, FinalityState, WaitStep};
use sugondat_shim::{
    no_tree_root, Attempt, Block, Client, ClientError, FetchError, Namespace, TransportError,
    TreeRoot,
};

fn tree_root_log(fill: u8) -> DigestItem {
    let mut bytes = b"snmt".to_vec();
    bytes.extend(std::iter::repeat(fill).take(68));
    DigestItem::Other(bytes)
}

fn header_with(logs: Vec<DigestItem>) -> Header {
    Header { number: 42, parent_hash: [9u8; 32], digest_logs: logs }
}

fn signer(key: [u8; 32]) -> Option<Vec<u8>> {
    let mut a = vec![0u8];
    a.extend_from_slice(&key);
    Some(a)
}

fn blob_ext(key: [u8; 32], namespace_id: u32, blob: Vec<u8>) -> Extrinsic {
    Extrinsic { address: signer(key), call: Call::SubmitBlob { namespace_id, blob } }
}

fn timestamp_ext(now: u64) -> Extrinsic {
    Extrinsic { address: None, call: Call::TimestampSet { now } }
}

fn other_ext() -> Extrinsic {
    Extrinsic { address: signer([1u8; 32]), call: Call::Other }
}

fn connected_client() -> (Client, u64) {
    let mut c = Client::new("ws://127.0.0.1:9988".to_string()).unwrap();
    let id = c.connected();
    (c, id)
}

fn expect_block(r: Attempt<Result<Block, FetchError>>) -> Result<Block, FetchError> {
    match r {
        Attempt::Done(b) => b,
        Attempt::Retry => panic!("a fetched block must not be retried"),
    }
}

#[test]
fn namespace_round_trips_through_u32() {
    for id in [0u32, 7, 0x0102_0304, 0xdead_beef, u32::MAX] {
        assert_eq!(Namespace::from_u32_be(id).to_u32_be(), id);
    }
    assert_eq!(Namespace::from_u32_be(0x0102_0304), Namespace::from_u32_be(0x0102_0304));
    assert_ne!(Namespace::from_u32_be(1), Namespace::from_u32_be(1 << 24));
}

#[test]
fn client_rejects_malformed_url() {
    assert!(matches!(Client::new("not a url".to_string()), Err(ClientError::InvalidUrl)));
    assert!(matches!(Client::new(String::new()), Err(ClientError::InvalidUrl)));
    let c = Client::new("ws://localhost:9988".to_string()).unwrap();
    assert_eq!(c.rpc_url().as_str(), "ws://localhost:9988");
    assert_eq!(c.ensure_connected(), EnsureStep::Connect);
}

#[test]
fn ensure_connected_is_idempotent() {
    let mut c = Connector::new();
    assert_eq!(c.ensure_connected(), EnsureStep::Connect);
    let id = c.connected();
    assert_eq!(c.ensure_connected(), EnsureStep::Use(id));
    assert_eq!(c.ensure_connected(), EnsureStep::Use(id));
    assert_eq!(c.connected(), id);
    assert_eq!(c.current(), Some(id));
}

#[test]
fn reset_forces_reconnect_and_ignores_stale_handles() {
    let mut c = Connector::new();
    let first = c.connected();
    assert!(c.reset(first));
    assert_eq!(c.ensure_connected(), EnsureStep::Connect);
    assert!(!c.reset(first));
    let second = c.connected();
    assert_ne!(first, second);
    assert!(!c.reset(first));
    assert_eq!(c.ensure_connected(), EnsureStep::Use(second));
}

#[test]
fn finality_heights_never_go_back() {
    let mut s = FinalityState::new();
    assert_eq!(s.latest(), (0, [0u8; 32]));
    assert!(s.publish(5, [5u8; 32]));
    assert!(!s.publish(3, [3u8; 32]));
    assert_eq!(s.latest(), (5, [5u8; 32]));
    assert!(s.publish(5, [6u8; 32]));
    assert!(s.publish(9, [9u8; 32]));
    assert_eq!(s.latest(), (9, [9u8; 32]));
}

#[test]
fn wait_decisions() {
    assert_eq!(wait_until_finalized(None, 3), WaitStep::Closed);
    assert_eq!(wait_until_finalized(Some((2, [2u8; 32])), 3), WaitStep::Pending);
    assert_eq!(wait_until_finalized(Some((3, [3u8; 32])), 3), WaitStep::Reached([3u8; 32]));
    assert_eq!(wait_until_finalized(Some((4, [4u8; 32])), 3), WaitStep::Passed);
}

#[test]
fn terminated_watcher_resets_connection() {
    let (mut c, id) = connected_client();
    assert_eq!(c.wait_finalized_height(id, 10, Some((10, [1u8; 32]))), WaitStep::Reached([1u8; 32]));
    assert_eq!(c.ensure_connected(), EnsureStep::Use(id));
    assert_eq!(c.wait_finalized_height(id, 10, None), WaitStep::Closed);
    assert_eq!(c.ensure_connected(), EnsureStep::Connect);
}

#[test]
fn zero_block_hash_means_no_block() {
    let (mut c, id) = connected_client();
    assert!(matches!(c.block_hash(id, Ok(Some([0u8; 32]))), Attempt::Done(None)));
    assert!(matches!(c.block_hash(id, Ok(None)), Attempt::Done(None)));
    let mut h = [0u8; 32];
    h[31] = 1;
    assert!(matches!(c.block_hash(id, Ok(Some(h))), Attempt::Done(Some(x)) if x == h));
    assert_eq!(c.ensure_connected(), EnsureStep::Use(id));
}

#[test]
fn transport_failure_resets_and_retries() {
    let (mut c, id) = connected_client();
    assert!(matches!(c.block_hash(id, Err(TransportError)), Attempt::Retry));
    assert_eq!(c.ensure_connected(), EnsureStep::Connect);
    let id2 = c.connected();
    assert!(matches!(c.get_block_at(id2, Err(TransportError)), Attempt::Retry));
    assert_eq!(c.ensure_connected(), EnsureStep::Connect);
}

#[test]
fn extraction_is_complete_and_ordered() {
    let alice = [0xaau8; 32];
    let bob = [0xbbu8; 32];
    let short_address = Extrinsic {
        address: Some(vec![0u8; 32]),
        call: Call::SubmitBlob { namespace_id: 1, blob: vec![1] },
    };
    let unsigned = Extrinsic { address: None, call: Call::SubmitBlob { namespace_id: 1, blob: vec![1] } };
    let xs = vec![
        timestamp_ext(1_000),
        blob_ext(alice, 7, vec![1, 2, 3]),
        other_ext(),
        short_address,
        blob_ext(bob, 0x0102_0304, vec![]),
        unsigned,
        blob_ext(alice, 7, vec![4]),
    ];
    let (mut c, id) = connected_client();
    let block = expect_block(c.get_block_at(id, Ok((header_with(vec![tree_root_log(3)]), xs)))).unwrap();
    assert_eq!(block.number, 42);
    assert_eq!(block.parent_hash, [9u8; 32]);
    assert_eq!(block.timestamp, 1_000);
    assert_eq!(block.tree_root.to_raw_bytes(), [3u8; 68]);
    assert_eq!(block.blobs.len(), 3);
    let indices: Vec<u32> = block.blobs.iter().map(|b| b.extrinsic_index).collect();
    assert_eq!(indices, vec![1, 4, 6]);
    assert_eq!(block.blobs[0].namespace, Namespace::from_u32_be(7));
    assert_eq!(block.blobs[0].sender, alice);
    assert_eq!(block.blobs[0].data, vec![1, 2, 3]);
    assert_eq!(block.blobs[1].namespace.to_u32_be(), 0x0102_0304);
    assert_eq!(block.blobs[1].sender, bob);
    assert!(block.blobs[1].data.is_empty());
    assert_eq!(block.blobs[2].data, vec![4]);
}

#[test]
fn block_without_blobs_has_empty_list() {
    let xs = vec![timestamp_ext(5), other_ext()];
    let block = block_from_parts(header_with(vec![tree_root_log(0)]), xs).unwrap();
    assert!(block.blobs.is_empty());
    assert!(extract_blobs(vec![]).is_empty());
}

#[test]
fn missing_timestamp_fails() {
    let xs = vec![blob_ext([1u8; 32], 7, vec![1]), blob_ext([2u8; 32], 8, vec![2]), other_ext()];
    let r = block_from_parts(header_with(vec![tree_root_log(1)]), xs);
    assert!(matches!(r, Err(FetchError::NoTimestamp)));
    assert!(matches!(extract_timestamp(&vec![]), Err(FetchError::NoTimestamp)));
}

#[test]
fn first_timestamp_wins() {
    let xs = vec![other_ext(), timestamp_ext(11), timestamp_ext(22)];
    assert_eq!(extract_timestamp(&xs), Ok(11));
}

#[test]
fn missing_tree_root_fails() {
    let logs = vec![
        DigestItem::PreRuntime(*b"aura", b"snmt".to_vec()),
        DigestItem::Other(b"smnt0000".to_vec()),
        DigestItem::RuntimeEnvironmentUpdated,
    ];
    let r = block_from_parts(header_with(logs), vec![timestamp_ext(1)]);
    assert!(matches!(r, Err(FetchError::NoTreeRoot)));
    let r = block_from_parts(header_with(vec![]), vec![]);
    assert!(matches!(r, Err(FetchError::NoTreeRoot)));
    assert_eq!(no_tree_root(), FetchError::NoTreeRoot);
}

#[test]
fn malformed_tree_root_fails_and_first_tag_wins() {
    let mut short = b"snmt".to_vec();
    short.extend([0u8; 67]);
    assert!(tree_root(&header_with(vec![DigestItem::Other(short.clone())])).is_none());
    assert!(tree_root(&header_with(vec![DigestItem::Other(short), tree_root_log(1)])).is_none());
    let r = tree_root(&header_with(vec![
        DigestItem::Seal(*b"aura", vec![1, 2]),
        tree_root_log(4),
        tree_root_log(5),
    ]));
    assert_eq!(r.map(|t| t.to_raw_bytes()), Some([4u8; 68]));
}

#[test]
fn tree_root_raw_bytes_round_trip() {
    let mut raw = [0u8; 68];
    for (i, b) in raw.iter_mut().enumerate() {
        *b = i as u8;
    }
    assert_eq!(TreeRoot::from_raw_bytes(&raw).to_raw_bytes(), raw);
}

#[test]
fn blob_hash_is_sha256_of_data() {
    let xs = vec![blob_ext([1u8; 32], 1, b"abc".to_vec())];
    let blobs = extract_blobs(xs);
    let expected: [u8; 32] = [
        0xba, 0x78, 0x16, 0xbf, 0x8f, 0x01, 0xcf, 0xea, 0x41, 0x41, 0x40, 0xde, 0x5d, 0xae, 0x22,
        0x23, 0xb0, 0x03, 0x61, 0xa3, 0x96, 0x17, 0x7a, 0x9c, 0xb4, 0x10, 0xff, 0x61, 0xf2, 0x00,
        0x15, 0xad,
    ];
    assert_eq!(blobs[0].sha2_hash(), expected);
}

#[test]
fn submit_then_fetch_returns_the_blob() {
    let signer_key = [0x42u8; 32];
    let payload: Vec<u8> = (0u8..10).collect();
    let (mut c, id) = connected_client();
    let call = c.submit_blob(payload.clone(), Namespace::from_u32_be(7));
    assert_eq!(call.namespace_id, 7);
    assert_eq!(call.blob, payload);

    // A stub node includes the signed call in a block beside the timestamp.
    let xs = vec![timestamp_ext(77), blob_ext(signer_key, call.namespace_id, call.blob)];
    let block = expect_block(c.get_block_at(id, Ok((header_with(vec![tree_root_log(2)]), xs)))).unwrap();
    assert_eq!(block.blobs.len(), 1);
    assert_eq!(block.blobs[0].namespace, Namespace::from_u32_be(7));
    assert_eq!(block.blobs[0].data, payload);
    assert_eq!(block.blobs[0].sender, signer_key);
    assert_eq!(block.blobs[0].extrinsic_index, 1);
}
