//! Fixed byte layouts of instruction payloads and of persisted records.
//! Every field has a static offset and width; integers are little-endian.
use vstd::prelude::*;
use vstd::bytes::{spec_u64_from_le_bytes, spec_u64_to_le_bytes, u64_from_le_bytes, u64_to_le_bytes};
use vstd::slice::slice_subrange;

verus! {

/// Width of an address, an item id and a caller seed.
pub const KEY_LEN: usize = 32;
/// Width of a listing title.
pub const TITLE_LEN: usize = 128;
/// Width of a listing description.
pub const DESC_LEN: usize = 1024;
/// Width of a stored integer.
pub const U64_LEN: usize = 8;
/// Width of the opaque tag carried by the pool bootstrap payloads.
pub const TAG_LEN: usize = 32;

// Listing record: item_id, title, description, price, payer.
pub const LISTING_ITEM_ID: usize = 0;
pub const LISTING_TITLE: usize = 32;
pub const LISTING_DESC: usize = 160;
pub const LISTING_PRICE: usize = 1184;
pub const LISTING_PAYER: usize = 1192;
pub const LISTING_SIZE: usize = 1224;

// Escrow order record: item_id, buyer, seller, price.
pub const ORDER_ITEM_ID: usize = 0;
pub const ORDER_BUYER: usize = 32;
pub const ORDER_SELLER: usize = 64;
pub const ORDER_PRICE: usize = 96;
pub const ORDER_SIZE: usize = 104;

// Registry record: item_id, buyer, seller, price, title, description, time.
pub const REGISTRY_ITEM_ID: usize = 0;
pub const REGISTRY_BUYER: usize = 32;
pub const REGISTRY_SELLER: usize = 64;
pub const REGISTRY_PRICE: usize = 96;
pub const REGISTRY_TITLE: usize = 104;
pub const REGISTRY_DESC: usize = 232;
pub const REGISTRY_TIME: usize = 1256;
pub const REGISTRY_SIZE: usize = 1264;

// Payload sizes, opcode byte excluded.
pub const INIT_SIZE: usize = 1240;
pub const UPDATE_SIZE: usize = 1192;
pub const DELETE_SIZE: usize = 32;
pub const BUY_SIZE: usize = 96;
pub const SELL_SIZE: usize = 64;
pub const CANCEL_SIZE: usize = 64;
pub const MONEY_HOLDER_SIZE: usize = 32;
pub const TEMP_HOLDER_SIZE: usize = 96;
pub const INFO_SIZE: usize = 32;

/// The `len` bytes of `d` that start at `at`.
pub open spec fn field(d: Seq<u8>, at: int, len: int) -> Seq<u8> {
    d.subrange(at, at + len)
}

/// The integer stored in the eight bytes of `d` that start at `at`.
pub open spec fn u64_at(d: Seq<u8>, at: int) -> u64 {
    spec_u64_from_le_bytes(field(d, at, 8))
}

/// `d` with the bytes from `at` on replaced by `src`.
pub open spec fn splice(d: Seq<u8>, at: int, src: Seq<u8>) -> Seq<u8> {
    d.subrange(0, at) + src + d.subrange(at + src.len(), d.len() as int)
}

/// A sequence of `n` zero bytes.
pub open spec fn zeros(n: nat) -> Seq<u8> {
    Seq::new(n, |i: int| 0u8)
}

/// Copies bytes `start..end` of `b` into a new vector.
pub fn copy_range(b: &[u8], start: usize, end: usize) -> (r: Vec<u8>)
    requires
        start <= end <= b@.len(),
    ensures
        r@ == b@.subrange(start as int, end as int),
{
    let mut r: Vec<u8> = Vec::new();
    let mut i: usize = start;
    while i < end
        invariant
            start <= i <= end <= b@.len(),
            r@ == b@.subrange(start as int, i as int),
        decreases end - i,
    {
        r.push(b[i]);
        assert(r@ =~= b@.subrange(start as int, i + 1));
        i = i + 1;
    }
    r
}

/// Reads the little-endian integer stored at `at`.
pub fn read_u64(b: &[u8], at: usize) -> (r: u64)
    requires
        at + 8 <= b@.len(),
    ensures
        r == u64_at(b@, at as int),
{
    let n = b.len();
    assert(at + 8 <= n);
    let s = slice_subrange(b, at, at + 8);
    u64_from_le_bytes(s)
}

/// Overwrites the bytes of `data` from `at` on with `src`, in place.
pub fn overwrite(data: &mut Vec<u8>, at: usize, src: &[u8])
    requires
        at + src@.len() <= old(data)@.len(),
    ensures
        final(data)@ == splice(old(data)@, at as int, src@),
{
    let n = src.len();
    let dl = data.len();
    let mut k: usize = 0;
    while k < n
        invariant
            n == src@.len(),
            dl == data@.len(),
            at + n <= data@.len(),
            data@.len() == old(data)@.len(),
            0 <= k <= n,
            forall|j: int| 0 <= j < at ==> data@[j] == old(data)@[j],
            forall|j: int| at + n <= j < data@.len() ==> data@[j] == old(data)@[j],
            forall|j: int| at <= j < at + k ==> data@[j] == src@[j - at],
        decreases n - k,
    {
        data[at + k] = src[k];
        k = k + 1;
    }
    assert(data@ =~= splice(old(data)@, at as int, src@));
}

/// Overwrites the eight bytes of `data` at `at` with the encoding of `v`.
pub fn write_u64(data: &mut Vec<u8>, at: usize, v: u64)
    requires
        at + 8 <= old(data)@.len(),
    ensures
        final(data)@ == splice(old(data)@, at as int, spec_u64_to_le_bytes(v)),
        u64_at(final(data)@, at as int) == v,
{
    let bytes = u64_to_le_bytes(v);
    overwrite(data, at, bytes.as_slice());
    proof {
        vstd::bytes::lemma_auto_spec_u64_to_from_le_bytes();
        assert(field(data@, at as int, 8) =~= spec_u64_to_le_bytes(v));
    }
}

/// Sets every byte of `data` to zero, keeping its length.
pub fn zero_fill(data: &mut Vec<u8>)
    ensures
        final(data)@ == zeros(old(data)@.len()),
{
    let n = data.len();
    let mut k: usize = 0;
    while k < n
        invariant
            n == data@.len(),
            n == old(data)@.len(),
            0 <= k <= n,
            forall|j: int| 0 <= j < k ==> data@[j] == 0u8,
        decreases n - k,
    {
        data[k] = 0u8;
        k = k + 1;
    }
    assert(data@ =~= zeros(old(data)@.len()));
}

} // verus!
