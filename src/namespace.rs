use vstd::prelude::*;

verus! {

/// The four big-endian bytes of a 32-bit identifier.
pub open spec fn be_bytes(x: u32) -> Seq<u8> {
    seq![(x >> 24u32) as u8, (x >> 16u32) as u8, (x >> 8u32) as u8, x as u8]
}

/// The 32-bit identifier whose big-endian bytes are the first four of `b`.
pub open spec fn be_value(b: Seq<u8>) -> u32
    recommends
        b.len() == 4,
{
    ((b[0] as u32) << 24u32) | ((b[1] as u32) << 16u32) | ((b[2] as u32) << 8u32) | (b[3] as u32)
}

/// A partition of blobs, identified by four bytes that read as a
/// big-endian 32-bit integer.
#[derive(Clone, Copy, Debug, PartialEq, Eq)]
pub struct Namespace {
    bytes: [u8; 4],
}

impl View for Namespace {
    type V = Seq<u8>;

    closed spec fn view(&self) -> Seq<u8> {
        self.bytes@
    }
}

impl Namespace {
    /// The namespace whose identifier is `id`, as big-endian bytes.
    pub fn from_u32_be(id: u32) -> (r: Namespace)
        ensures
            r@ == be_bytes(id),
    {
        let r = Namespace {
            bytes: [(id >> 24u32) as u8, (id >> 16u32) as u8, (id >> 8u32) as u8, id as u8],
        };
        assert(r@ =~= be_bytes(id));
        r
    }

    /// The identifier of this namespace, read from its big-endian bytes.
    pub fn to_u32_be(&self) -> (r: u32)
        ensures
            r == be_value(self@),
    {
        ((self.bytes[0] as u32) << 24u32) | ((self.bytes[1] as u32) << 16u32) | ((
        self.bytes[2] as u32) << 8u32) | (self.bytes[3] as u32)
    }
}

/// Encoding an identifier to its big-endian bytes and reading them back
/// gives the identifier again.
pub proof fn lemma_id_round_trip(id: u32)
    ensures
        be_value(be_bytes(id)) == id,
{
    let b = be_bytes(id);
    assert(b[0] == (id >> 24u32) as u8);
    assert(b[1] == (id >> 16u32) as u8);
    assert(b[2] == (id >> 8u32) as u8);
    assert(b[3] == id as u8);
    assert(((((id >> 24u32) as u8) as u32) << 24u32) | ((((id >> 16u32) as u8) as u32) << 16u32)
        | ((((id >> 8u32) as u8) as u32) << 8u32) | ((id as u8) as u32) == id) by (bit_vector);
}

/// Every namespace is the one built from its own identifier: reading a
/// namespace as a 32-bit big-endian value and encoding that value back
/// gives the same bytes.
pub proof fn lemma_namespace_round_trip(ns: Namespace)
    ensures
        be_bytes(be_value(ns@)) == ns@,
{
    let b0 = ns@[0];
    let b1 = ns@[1];
    let b2 = ns@[2];
    let b3 = ns@[3];
    let v = be_value(ns@);
    assert(v == ((b0 as u32) << 24u32) | ((b1 as u32) << 16u32) | ((b2 as u32) << 8u32) | (b3 as u32));
    assert(((((b0 as u32) << 24u32) | ((b1 as u32) << 16u32) | ((b2 as u32) << 8u32) | (b3 as u32))
        >> 24u32) as u8 == b0) by (bit_vector);
    assert(((((b0 as u32) << 24u32) | ((b1 as u32) << 16u32) | ((b2 as u32) << 8u32) | (b3 as u32))
        >> 16u32) as u8 == b1) by (bit_vector);
    assert(((((b0 as u32) << 24u32) | ((b1 as u32) << 16u32) | ((b2 as u32) << 8u32) | (b3 as u32))
        >> 8u32) as u8 == b2) by (bit_vector);
    assert((((b0 as u32) << 24u32) | ((b1 as u32) << 16u32) | ((b2 as u32) << 8u32) | (b3 as u32))
        as u8 == b3) by (bit_vector);
    assert(be_bytes(v) =~= ns@);
}

} // verus!
