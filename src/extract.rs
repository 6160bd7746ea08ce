use sha2::Digest;
use vstd::prelude::*;

use crate::namespace::{be_bytes, Namespace};

verus! {

/// An entry of a block header's digest log. Each variant but the last
/// carries the raw bytes that the node put in the log.
pub enum DigestItem {
    PreRuntime([u8; 4], Vec<u8>),
    Consensus([u8; 4], Vec<u8>),
    Seal([u8; 4], Vec<u8>),
    Other(Vec<u8>),
    RuntimeEnvironmentUpdated,
}

/// The parts of a decoded block header that a block is built from.
pub struct Header {
    pub number: u32,
    pub parent_hash: [u8; 32],
    pub digest_logs: Vec<DigestItem>,
}

/// The call that an extrinsic makes, as far as blocks are concerned.
pub enum Call {
    /// The timestamp inherent, with its `now` field.
    TimestampSet { now: u64 },
    /// A blob submission: the namespace identifier and the payload.
    SubmitBlob { namespace_id: u32, blob: Vec<u8> },
    /// Any call that decodes as neither of the above.
    Other,
}

/// One record of a block's extrinsic list: the raw bytes of its signer
/// address, when it has one that decodes, and its call.
pub struct Extrinsic {
    pub address: Option<Vec<u8>>,
    pub call: Call,
}

/// Why a fetched block cannot be turned into a `Block`. Neither condition
/// goes away on a retry.
#[derive(Clone, Copy, Debug, PartialEq, Eq)]
pub enum FetchError {
    /// No digest log carries a well-formed tree root: the chain is not one
    /// that stores blobs.
    NoTreeRoot,
    /// The block lacks the mandatory timestamp inherent.
    NoTimestamp,
}

/// The error for a header that carries no tree root.
pub fn no_tree_root() -> (r: FetchError)
    ensures
        r == FetchError::NoTreeRoot,
{
    FetchError::NoTreeRoot
}

/// Length of the raw encoding of a tree root.
pub const TREE_ROOT_LEN: usize = 68;

/// The root of a block's namespaced Merkle tree, held as its raw encoding.
#[derive(Clone, Copy, Debug, PartialEq, Eq)]
pub struct TreeRoot {
    raw: [u8; 68],
}

impl View for TreeRoot {
    type V = Seq<u8>;

    closed spec fn view(&self) -> Seq<u8> {
        self.raw@
    }
}

impl TreeRoot {
    pub fn from_raw_bytes(raw: &[u8; 68]) -> (r: TreeRoot)
        ensures
            r@ == raw@,
    {
        TreeRoot { raw: *raw }
    }

    pub fn to_raw_bytes(&self) -> (r: [u8; 68])
        ensures
            r@ == self@,
    {
        self.raw
    }
}

/// The ASCII tag `snmt` that opens the digest log entry holding the tree root.
pub open spec fn tree_root_tag() -> Seq<u8> {
    seq![0x73u8, 0x6eu8, 0x6du8, 0x74u8]
}

/// Whether a log entry is an `Other` entry whose bytes begin with the tag.
pub open spec fn is_tree_root_log(item: DigestItem) -> bool {
    match item {
        DigestItem::Other(b) => b@.len() >= 4 && b@.subrange(0, 4) == tree_root_tag(),
        _ => false,
    }
}

/// The tree root found by scanning `logs` from position `i`: the first
/// tagged entry decides, and it holds a tree root only when exactly
/// 68 bytes follow the tag.
pub open spec fn tree_root_from(logs: Seq<DigestItem>, i: int) -> Option<Seq<u8>>
    decreases logs.len() - i,
{
    if i < 0 || i >= logs.len() {
        None
    } else if is_tree_root_log(logs[i]) {
        let b = logs[i]->Other_0@;
        if b.len() == 4 + 68 {
            Some(b.subrange(4, b.len() as int))
        } else {
            None
        }
    } else {
        tree_root_from(logs, i + 1)
    }
}

/// The tree root of a header's digest log.
pub open spec fn tree_root_of(logs: Seq<DigestItem>) -> Option<Seq<u8>> {
    tree_root_from(logs, 0)
}

fn starts_with_tag(b: &Vec<u8>) -> (r: bool)
    ensures
        r == (b@.len() >= 4 && b@.subrange(0, 4) == tree_root_tag()),
{
    if b.len() >= 4 && b[0] == 0x73u8 && b[1] == 0x6eu8 && b[2] == 0x6du8 && b[3] == 0x74u8 {
        assert(b@.subrange(0, 4) =~= tree_root_tag());
        true
    } else {
        proof {
            if b@.len() >= 4 && b@.subrange(0, 4) == tree_root_tag() {
                assert(b@[0] == b@.subrange(0, 4)[0]);
                assert(b@[1] == b@.subrange(0, 4)[1]);
                assert(b@[2] == b@.subrange(0, 4)[2]);
                assert(b@[3] == b@.subrange(0, 4)[3]);
            }
        }
        false
    }
}

/// Extracts the tree root committed in one of the header's digest logs.
/// Returns `None` where no log carries the tag, or where the first one that
/// does is not followed by exactly 68 bytes.
pub fn tree_root(header: &Header) -> (r: Option<TreeRoot>)
    ensures
        match tree_root_of(header.digest_logs@) {
            Some(raw) => r is Some && r->Some_0@ == raw,
            None => r is None,
        },
{
    let logs = &header.digest_logs;
    let mut i: usize = 0;
    while i < logs.len()
        invariant
            i <= logs@.len(),
            logs@ == header.digest_logs@,
            tree_root_from(logs@, 0) == tree_root_from(logs@, i as int),
        decreases logs@.len() - i,
    {
        if let DigestItem::Other(bytes) = &logs[i] {
            if starts_with_tag(bytes) {
                assert(is_tree_root_log(logs@[i as int]));
                assert(logs@[i as int]->Other_0@ == bytes@);
                if bytes.len() != 4 + TREE_ROOT_LEN {
                    return None;
                }
                let mut raw = [0u8; 68];
                let mut k: usize = 0;
                while k < TREE_ROOT_LEN
                    invariant
                        bytes@.len() == 4 + 68,
                        k <= 68,
                        raw@.len() == 68,
                        forall|j: int| 0 <= j < k ==> raw@[j] == bytes@[j + 4],
                    decreases 68 - k,
                {
                    raw[k] = bytes[k + 4];
                    k = k + 1;
                }
                assert(raw@ =~= bytes@.subrange(4, 72));
                return Some(TreeRoot::from_raw_bytes(&raw));
            }
        }
        i = i + 1;
    }
    None
}

} // verus!

verus! {

/// The timestamp found by scanning `xs` from position `i`: the `now` field
/// of the first timestamp inherent.
pub open spec fn timestamp_from(xs: Seq<Extrinsic>, i: int) -> Option<u64>
    decreases xs.len() - i,
{
    if i < 0 || i >= xs.len() {
        None
    } else {
        match xs[i].call {
            Call::TimestampSet { now } => Some(now),
            _ => timestamp_from(xs, i + 1),
        }
    }
}

/// The timestamp of a block's extrinsic list.
pub open spec fn timestamp_of(xs: Seq<Extrinsic>) -> Option<u64> {
    timestamp_from(xs, 0)
}

/// Returns the `now` field of the first timestamp inherent among the
/// extrinsics. Every valid block carries one: its absence is an error.
pub fn extract_timestamp(extrinsics: &Vec<Extrinsic>) -> (r: Result<u64, FetchError>)
    ensures
        match timestamp_of(extrinsics@) {
            Some(now) => r == Ok::<u64, FetchError>(now),
            None => r == Err::<u64, FetchError>(FetchError::NoTimestamp),
        },
{
    let mut i: usize = 0;
    while i < extrinsics.len()
        invariant
            i <= extrinsics@.len(),
            timestamp_from(extrinsics@, 0) == timestamp_from(extrinsics@, i as int),
        decreases extrinsics@.len() - i,
    {
        if let Call::TimestampSet { now } = &extrinsics[i].call {
            return Ok(*now);
        }
        i = i + 1;
    }
    Err(FetchError::NoTimestamp)
}

/// A blob found in a block.
#[derive(Debug)]
pub struct Blob {
    /// Position of the originating extrinsic in the block's extrinsic list.
    pub extrinsic_index: u32,
    pub namespace: Namespace,
    /// The signer's 32-byte public key.
    pub sender: [u8; 32],
    pub data: Vec<u8>,
}

/// What a `Blob` holds, as plain values.
pub struct BlobView {
    pub extrinsic_index: u32,
    pub namespace: Seq<u8>,
    pub sender: Seq<u8>,
    pub data: Seq<u8>,
}

impl View for Blob {
    type V = BlobView;

    open spec fn view(&self) -> BlobView {
        BlobView {
            extrinsic_index: self.extrinsic_index,
            namespace: self.namespace@,
            sender: self.sender@,
            data: self.data@,
        }
    }
}

/// The blob that the extrinsic at position `index` carries: it has one when
/// its signer address is exactly 33 bytes (a scheme byte, then the 32-byte
/// key) and its call is a blob submission.
pub open spec fn blob_of(e: Extrinsic, index: int) -> Option<BlobView> {
    match e.address {
        Some(a) => if a@.len() == 33 {
            match e.call {
                Call::SubmitBlob { namespace_id, blob } => Some(
                    BlobView {
                        extrinsic_index: index as u32,
                        namespace: be_bytes(namespace_id),
                        sender: a@.subrange(1, 33),
                        data: blob@,
                    },
                ),
                _ => None,
            }
        } else {
            None
        },
        None => None,
    }
}

/// The blobs of an extrinsic list, in extrinsic order.
pub open spec fn blobs_of(xs: Seq<Extrinsic>) -> Seq<BlobView>
    decreases xs.len(),
{
    if xs.len() == 0 {
        Seq::empty()
    } else {
        let prev = blobs_of(xs.drop_last());
        match blob_of(xs.last(), xs.len() - 1) {
            Some(b) => prev.push(b),
            None => prev,
        }
    }
}

/// The views of a list of blobs.
pub open spec fn blob_views(bs: Seq<Blob>) -> Seq<BlobView> {
    bs.map_values(|b: Blob| b@)
}

fn copy_bytes(b: &Vec<u8>) -> (r: Vec<u8>)
    ensures
        r@ == b@,
{
    let mut r: Vec<u8> = Vec::with_capacity(b.len());
    let mut i: usize = 0;
    while i < b.len()
        invariant
            i <= b@.len(),
            r@ == b@.subrange(0, i as int),
        decreases b@.len() - i,
    {
        r.push(b[i]);
        i = i + 1;
        assert(r@ =~= b@.subrange(0, i as int));
    }
    assert(b@.subrange(0, b@.len() as int) =~= b@);
    r
}

/// The 32 bytes of a 33-byte signer address that follow its scheme byte.
fn sender_key(a: &Vec<u8>) -> (r: [u8; 32])
    requires
        a@.len() == 33,
    ensures
        r@ == a@.subrange(1, 33),
{
    let mut r = [0u8; 32];
    let mut k: usize = 0;
    while k < 32
        invariant
            a@.len() == 33,
            k <= 32,
            r@.len() == 32,
            forall|j: int| 0 <= j < k ==> r@[j] == a@[j + 1],
        decreases 32 - k,
    {
        r[k] = a[k + 1];
        k = k + 1;
    }
    assert(r@ =~= a@.subrange(1, 33));
    r
}

/// Collects the blob submissions of a block's extrinsic list, in order,
/// each with the position of its extrinsic. Extrinsics whose signer address
/// is missing or not 33 bytes long, and those that submit no blob, are
/// skipped.
pub fn extract_blobs(extrinsics: Vec<Extrinsic>) -> (r: Vec<Blob>)
    requires
        extrinsics@.len() <= u32::MAX as nat + 1,
    ensures
        blob_views(r@) == blobs_of(extrinsics@),
{
    let mut blobs: Vec<Blob> = Vec::new();
    let mut i: usize = 0;
    while i < extrinsics.len()
        invariant
            i <= extrinsics@.len(),
            extrinsics@.len() <= u32::MAX as nat + 1,
            blob_views(blobs@) == blobs_of(extrinsics@.take(i as int)),
        decreases extrinsics@.len() - i,
    {
        let e = &extrinsics[i];
        let ghost xs = extrinsics@.take(i as int + 1);
        assert(xs.drop_last() =~= extrinsics@.take(i as int));
        assert(xs.last() == extrinsics@[i as int]);
        if let Some(address) = &e.address {
            if address.len() == 33 {
                if let Call::SubmitBlob { namespace_id, blob } = &e.call {
                    let b = Blob {
                        extrinsic_index: i as u32,
                        namespace: Namespace::from_u32_be(*namespace_id),
                        sender: sender_key(address),
                        data: copy_bytes(blob),
                    };
                    let ghost before = blobs@;
                    let ghost bv = b@;
                    blobs.push(b);
                    assert(blob_views(blobs@) =~= blob_views(before).push(bv));
                }
            }
        }
        i = i + 1;
    }
    assert(extrinsics@.take(extrinsics@.len() as int) =~= extrinsics@);
    blobs
}

} // verus!

verus! {

/// A block of the chain, with the blobs it holds.
pub struct Block {
    pub number: u64,
    pub parent_hash: [u8; 32],
    pub tree_root: TreeRoot,
    pub timestamp: u64,
    pub blobs: Vec<Blob>,
}

/// Whether `r` is what a block's header and extrinsic list make: the
/// `NoTreeRoot` error where the header carries no well-formed tree root,
/// otherwise the `NoTimestamp` error where no extrinsic sets the timestamp,
/// and otherwise the block with the header's number and parent hash, the
/// tree root, the timestamp and the blobs of the extrinsic list.
pub open spec fn built_from(header: Header, xs: Seq<Extrinsic>, r: Result<Block, FetchError>) -> bool {
    match tree_root_of(header.digest_logs@) {
        None => r == Err::<Block, FetchError>(FetchError::NoTreeRoot),
        Some(root) => match timestamp_of(xs) {
            None => r == Err::<Block, FetchError>(FetchError::NoTimestamp),
            Some(now) => {
                &&& r is Ok
                &&& r->Ok_0.number == header.number as u64
                &&& r->Ok_0.parent_hash == header.parent_hash
                &&& r->Ok_0.tree_root@ == root
                &&& r->Ok_0.timestamp == now
                &&& blob_views(r->Ok_0.blobs@) == blobs_of(xs)
            },
        },
    }
}

/// Builds a block from its decoded header and extrinsic list. Fails with
/// `NoTreeRoot` where the header carries no well-formed tree root, and
/// otherwise with `NoTimestamp` where no extrinsic sets the timestamp; a
/// block without blob submissions has an empty blob list.
pub fn block_from_parts(header: Header, extrinsics: Vec<Extrinsic>) -> (r: Result<
    Block,
    FetchError,
>)
    requires
        extrinsics@.len() <= u32::MAX as nat + 1,
    ensures
        built_from(header, extrinsics@, r),
{
    let tree_root = match tree_root(&header) {
        Some(t) => t,
        None => {
            return Err(no_tree_root());
        },
    };
    let timestamp = match extract_timestamp(&extrinsics) {
        Ok(t) => t,
        Err(e) => {
            return Err(e);
        },
    };
    let blobs = extract_blobs(extrinsics);
    Ok(Block { number: header.number as u64, parent_hash: header.parent_hash, tree_root, timestamp, blobs })
}

/// The SHA-256 digest of a byte string.
pub uninterp spec fn sha256_of(data: Seq<u8>) -> Seq<u8>;

/// Relies on sha2's `Sha256::digest`: the 32-byte SHA-256 digest of the
/// input, which depends on the input alone.
#[verifier::external_body]
fn sha256(data: &Vec<u8>) -> (r: [u8; 32])
    ensures
        r@ == sha256_of(data@),
{
    sha2::Sha256::digest(data.as_slice()).into()
}

impl Blob {
    /// The SHA-256 digest of the blob's data.
    pub fn sha2_hash(&self) -> (r: [u8; 32])
        ensures
            r@ == sha256_of(self.data@),
    {
        sha256(&self.data)
    }
}

} // verus!

verus! {

proof fn lemma_tree_root_absent_from(logs: Seq<DigestItem>, i: int)
    requires
        0 <= i,
        forall|j: int| i <= j < logs.len() ==> !is_tree_root_log(#[trigger] logs[j]),
    ensures
        tree_root_from(logs, i) is None,
    decreases logs.len() - i,
{
    if i < logs.len() {
        lemma_tree_root_absent_from(logs, i + 1);
    }
}

/// A header whose digest log has no entry that carries the tree-root tag
/// makes a block fail with `NoTreeRoot`, whatever its extrinsics are.
pub proof fn lemma_missing_tree_root_fails(
    header: Header,
    xs: Seq<Extrinsic>,
    r: Result<Block, FetchError>,
)
    requires
        forall|j: int| 0 <= j < header.digest_logs@.len() ==> !is_tree_root_log(
            #[trigger] header.digest_logs@[j],
        ),
        built_from(header, xs, r),
    ensures
        r == Err::<Block, FetchError>(FetchError::NoTreeRoot),
{
    lemma_tree_root_absent_from(header.digest_logs@, 0);
}

proof fn lemma_timestamp_absent_from(xs: Seq<Extrinsic>, i: int)
    requires
        0 <= i,
        forall|j: int| i <= j < xs.len() ==> !((#[trigger] xs[j]).call is TimestampSet),
    ensures
        timestamp_from(xs, i) is None,
    decreases xs.len() - i,
{
    if i < xs.len() {
        lemma_timestamp_absent_from(xs, i + 1);
    }
}

/// A block whose header carries a tree root but none of whose extrinsics
/// sets the timestamp fails with `NoTimestamp`, however many blobs it holds.
pub proof fn lemma_missing_timestamp_fails(
    header: Header,
    xs: Seq<Extrinsic>,
    r: Result<Block, FetchError>,
)
    requires
        tree_root_of(header.digest_logs@) is Some,
        forall|j: int| 0 <= j < xs.len() ==> !((#[trigger] xs[j]).call is TimestampSet),
        built_from(header, xs, r),
    ensures
        r == Err::<Block, FetchError>(FetchError::NoTimestamp),
{
    lemma_timestamp_absent_from(xs, 0);
}

/// The blobs of an extrinsic list are exactly its blob submissions, in
/// order: each blob is the one carried by the extrinsic at the position it
/// names, every extrinsic that carries a blob contributes it, and positions
/// strictly increase along the list (so each occurs once).
pub proof fn lemma_blobs_complete(xs: Seq<Extrinsic>)
    requires
        xs.len() <= u32::MAX as nat + 1,
    ensures
        forall|k: int|
            0 <= k < blobs_of(xs).len() ==> {
                let b = #[trigger] blobs_of(xs)[k];
                &&& 0 <= b.extrinsic_index < xs.len()
                &&& blob_of(xs[b.extrinsic_index as int], b.extrinsic_index as int) == Some(b)
            },
        forall|i: int|
            0 <= i < xs.len() && (#[trigger] blob_of(xs[i], i)) is Some ==> blobs_of(xs).contains(
                blob_of(xs[i], i)->Some_0,
            ),
        forall|k1: int, k2: int|
            0 <= k1 < k2 < blobs_of(xs).len() ==> (#[trigger] blobs_of(xs)[k1]).extrinsic_index
                < (#[trigger] blobs_of(xs)[k2]).extrinsic_index,
    decreases xs.len(),
{
    if xs.len() > 0 {
        let p = xs.drop_last();
        let n = xs.len() - 1;
        lemma_blobs_complete(p);
        let prev = blobs_of(p);
        assert forall|i: int| 0 <= i < p.len() implies #[trigger] blob_of(xs[i], i) == blob_of(
            p[i],
            i,
        ) by {}
        match blob_of(xs.last(), n) {
            Some(b) => {
                assert(blobs_of(xs) == prev.push(b));
                assert(b.extrinsic_index as int == n);
                assert forall|k: int| 0 <= k < prev.len() implies (#[trigger] prev[k]).extrinsic_index
                    < n by {}
                assert forall|i: int|
                    0 <= i < xs.len() && (#[trigger] blob_of(xs[i], i)) is Some implies blobs_of(
                    xs,
                ).contains(blob_of(xs[i], i)->Some_0) by {
                    if i < n {
                        let k = choose|k: int| 0 <= k < prev.len() && prev[k] == blob_of(
                            p[i],
                            i,
                        )->Some_0;
                        assert(blobs_of(xs)[k] == prev[k]);
                    } else {
                        assert(blobs_of(xs)[prev.len() as int] == b);
                    }
                }
            },
            None => {
                assert(blobs_of(xs) == prev);
                assert forall|i: int|
                    0 <= i < xs.len() && (#[trigger] blob_of(xs[i], i)) is Some implies blobs_of(
                    xs,
                ).contains(blob_of(xs[i], i)->Some_0) by {
                    if i == n {
                        assert(blob_of(xs.last(), n) is None);
                    }
                }
            },
        }
    }
}

} // verus!
