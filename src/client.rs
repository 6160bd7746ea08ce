use vstd::prelude::*;

use crate::connector::{after_reset, Connector, ConnectorModel, EnsureStep, ensured, ensured_handle};
use crate::extract::{block_from_parts, built_from, Block, Extrinsic, FetchError, Header};
use crate::finality::{wait_until_finalized, WaitStep};
use crate::namespace::{be_value, Namespace};

verus! {

/// Whether a string parses as a URL.
pub uninterp spec fn is_url(s: Seq<char>) -> bool;

/// Relies on url's `Url::parse`: whether the string is a well-formed URL,
/// which depends on the string alone.
#[verifier::external_body]
fn parses_as_url(s: &str) -> (r: bool)
    ensures
        r == is_url(s@),
{
    url::Url::parse(s).is_ok()
}

/// A client that cannot be made.
#[derive(Clone, Copy, Debug, PartialEq, Eq)]
pub enum ClientError {
    /// The endpoint string is not a well-formed URL.
    InvalidUrl,
}

/// A request to the node failed in transit; the connection it went over is
/// taken to be broken.
#[derive(Clone, Copy, Debug, PartialEq, Eq)]
pub struct TransportError;

/// The outcome of one attempt of a query: its result, or a retry after the
/// connection it used has been reset.
pub enum Attempt<T> {
    Done(T),
    Retry,
}

/// The blob submission call to be signed and broadcast.
pub struct SubmitBlobCall {
    pub namespace_id: u32,
    pub blob: Vec<u8>,
}

/// Whether a hash is the all-zero hash.
pub open spec fn is_zero_hash(h: Seq<u8>) -> bool {
    forall|i: int| 0 <= i < h.len() ==> h[i] == 0u8
}

/// The node answers a height it has no block for with the all-zero hash;
/// that answer means no block, like an empty one.
pub open spec fn normalized_hash(h: Option<[u8; 32]>) -> Option<[u8; 32]> {
    match h {
        Some(x) => if is_zero_hash(x@) {
            None
        } else {
            h
        },
        None => None,
    }
}

/// Applies the node's convention that an all-zero block hash stands for
/// "no block at this height". Kept apart on purpose: another node may one
/// day return a genuine zero hash.
pub fn normalize_block_hash(h: Option<[u8; 32]>) -> (r: Option<[u8; 32]>)
    ensures
        r == normalized_hash(h),
{
    match h {
        None => None,
        Some(x) => {
            let mut i: usize = 0;
            while i < 32
                invariant
                    i <= 32,
                    x@.len() == 32,
                    h == Some(x),
                    forall|j: int| 0 <= j < i ==> x@[j] == 0u8,
                decreases 32 - i,
            {
                if x[i] != 0 {
                    assert(!is_zero_hash(x@)) by {
                        assert(x@[i as int] != 0u8);
                    }
                    return Some(x);
                }
                i = i + 1;
            }
            None
        },
    }
}

/// What a `Client` holds, as plain values.
pub struct ClientView {
    pub rpc_url: Seq<char>,
    pub connector: ConnectorModel,
}

/// The node's endpoint and the connector that all users of the client share.
/// Each query is one attempt at a time: on a transport failure the
/// connection is reset and the query is attempted again, without end; a
/// structurally invalid block fails at once.
pub struct Client {
    rpc_url: String,
    connector: Connector,
}

impl View for Client {
    type V = ClientView;

    closed spec fn view(&self) -> ClientView {
        ClientView { rpc_url: self.rpc_url@, connector: self.connector@ }
    }
}

impl Client {
    /// A client for the node at `rpc_url`, not yet connected. Fails at once,
    /// without retry, where the string is not a well-formed URL.
    pub fn new(rpc_url: String) -> (r: Result<Client, ClientError>)
        ensures
            r is Ok <==> is_url(rpc_url@),
            r matches Ok(c) ==> c@ == (ClientView {
                rpc_url: rpc_url@,
                connector: ConnectorModel { current: None, last: 0 },
            }),
            r matches Err(e) ==> e == ClientError::InvalidUrl,
    {
        if !parses_as_url(rpc_url.as_str()) {
            return Err(ClientError::InvalidUrl);
        }
        Ok(Client { rpc_url, connector: Connector::new() })
    }

    /// The node's endpoint.
    pub fn rpc_url(&self) -> (r: &String)
        ensures
            r@ == self@.rpc_url,
    {
        &self.rpc_url
    }

    /// The first step of ensuring a connection: use the live one, or connect.
    pub fn ensure_connected(&self) -> (r: EnsureStep)
        ensures
            self@.connector.current matches Some(id) ==> r == EnsureStep::Use(id) && id
                == ensured_handle(self@.connector),
            self@.connector.current is None ==> r == EnsureStep::Connect,
    {
        self.connector.ensure_connected()
    }

    /// Records a successful connect attempt; returns the live connection.
    pub fn connected(&mut self) -> (id: u64)
        ensures
            final(self)@.rpc_url == old(self)@.rpc_url,
            final(self)@.connector == ensured(old(self)@.connector),
            id == ensured_handle(old(self)@.connector),
    {
        self.connector.connected()
    }

    /// Drops the connection `seen` if it is still the live one; returns
    /// whether it did, in which case its watcher is to be stopped.
    pub fn reset(&mut self, seen: u64) -> (stopped: bool)
        ensures
            final(self)@.rpc_url == old(self)@.rpc_url,
            final(self)@.connector == after_reset(old(self)@.connector, seen),
            stopped == (old(self)@.connector.current == Some(seen)),
    {
        self.connector.reset(seen)
    }

    /// One attempt of looking up the block hash at a height, given the
    /// node's answer over connection `conn`. A transport failure resets that
    /// connection and asks for a retry; an answer is returned with the
    /// all-zero hash read as "no block".
    pub fn block_hash(&mut self, conn: u64, response: Result<Option<[u8; 32]>, TransportError>) -> (r:
        Attempt<Option<[u8; 32]>>)
        ensures
            final(self)@.rpc_url == old(self)@.rpc_url,
            response is Err ==> r is Retry && final(self)@.connector == after_reset(
                old(self)@.connector,
                conn,
            ),
            response matches Ok(h) ==> r == Attempt::Done(normalized_hash(h)) && final(self)@
                == old(self)@,
    {
        match response {
            Err(_) => {
                self.reset(conn);
                Attempt::Retry
            },
            Ok(h) => Attempt::Done(normalize_block_hash(h)),
        }
    }

    /// One attempt of fetching the block with a given hash, given the
    /// header and extrinsic list that came over connection `conn`. A
    /// transport failure resets that connection and asks for a retry; a
    /// fetched block is built, or fails for good where it has no tree root
    /// or no timestamp.
    pub fn get_block_at(
        &mut self,
        conn: u64,
        fetched: Result<(Header, Vec<Extrinsic>), TransportError>,
    ) -> (r: Attempt<Result<Block, FetchError>>)
        requires
            fetched matches Ok((_, xs)) ==> xs@.len() <= u32::MAX as nat + 1,
        ensures
            final(self)@.rpc_url == old(self)@.rpc_url,
            fetched is Err ==> r is Retry && final(self)@.connector == after_reset(
                old(self)@.connector,
                conn,
            ),
            fetched matches Ok((header, xs)) ==> r matches Attempt::Done(b) && built_from(
                header,
                xs@,
                b,
            ) && final(self)@ == old(self)@,
    {
        match fetched {
            Err(_) => {
                self.reset(conn);
                Attempt::Retry
            },
            Ok((header, xs)) => Attempt::Done(block_from_parts(header, xs)),
        }
    }

    /// One step of waiting for `height` to be finalized, given what was
    /// observed from the watcher of connection `conn` (`None`: the watcher
    /// has terminated, so the connection is reset and the wait starts over).
    pub fn wait_finalized_height(
        &mut self,
        conn: u64,
        height: u64,
        observed: Option<(u64, [u8; 32])>,
    ) -> (r: WaitStep)
        ensures
            final(self)@.rpc_url == old(self)@.rpc_url,
            observed is None ==> r == WaitStep::Closed && final(self)@.connector == after_reset(
                old(self)@.connector,
                conn,
            ),
            observed matches Some((h, hash)) ==> {
                &&& final(self)@ == old(self)@
                &&& h < height ==> r == WaitStep::Pending
                &&& h == height ==> r == WaitStep::Reached(hash)
                &&& h > height ==> r == WaitStep::Passed
            },
    {
        let r = wait_until_finalized(observed, height);
        if let WaitStep::Closed = r {
            self.reset(conn);
        }
        r
    }

    /// The blob submission call for `blob` under `namespace`, which carries
    /// the namespace as its 32-bit big-endian identifier. Submitting it is
    /// best effort and not retried.
    pub fn submit_blob(&self, blob: Vec<u8>, namespace: Namespace) -> (r: SubmitBlobCall)
        ensures
            r.namespace_id == be_value(namespace@),
            r.blob@ == blob@,
    {
        SubmitBlobCall { namespace_id: namespace.to_u32_be(), blob }
    }
}

} // verus!
