use crate::error::StoreError;
use vstd::bytes::{
    lemma_auto_spec_u64_to_from_le_bytes, spec_u64_from_le_bytes, spec_u64_to_le_bytes, u64_from_le_bytes,
    u64_to_le_bytes,
};
use vstd::prelude::*;
use vstd::slice::slice_subrange;

verus! {

/// Byte length of a packed store record: flag, price, three addresses.
pub const STORE_LEN: usize = 105;

/// The persisted state of one fixed-price store.
#[derive(Clone, Copy, Debug, PartialEq, Eq)]
pub struct Store {
    pub is_initialized: bool,
    /// quote-token units per base-token unit
    pub price: u64,
    /// the address allowed to change the price
    pub owner_pubkey: [u8; 32],
    /// the quote-token account: pays out on sell, is paid into on buy
    pub native_tokens_to_auto_sell_pubkey: [u8; 32],
    /// the base-token account: pays out on buy, is paid into on sell
    pub store_tokens_to_auto_buy_pubkey: [u8; 32],
}

/// The packed form of a record with the given field values.
pub open spec fn record_bytes(
    is_initialized: bool,
    price: u64,
    owner: Seq<u8>,
    quote: Seq<u8>,
    base: Seq<u8>,
) -> Seq<u8> {
    seq![if is_initialized { 1u8 } else { 0u8 }] + spec_u64_to_le_bytes(price) + owner + quote
        + base
}

/// Whether a byte string is the packed form of some record.
pub open spec fn valid_record_bytes(src: Seq<u8>) -> bool {
    src.len() == STORE_LEN && src[0] <= 1
}

/// The 32 bytes of `src` from `offset` on.
pub open spec fn address_at(src: Seq<u8>, offset: int) -> Seq<u8> {
    src.subrange(offset, offset + 32)
}

/// Copies the 32 bytes at `offset` into an address.
fn read_address(src: &[u8], offset: usize) -> (a: [u8; 32])
    requires
        offset + 32 <= src@.len(),
    ensures
        a@ == address_at(src@, offset as int),
{
    let mut a = [0u8; 32];
    let mut i: usize = 0;
    while i < 32
        invariant
            0 <= i <= 32,
            offset + 32 <= src.len(),
            a@.len() == 32,
            forall|j: int| 0 <= j < i ==> a@[j] == src@[offset + j],
        decreases 32 - i,
    {
        a[i] = src[offset + i];
        i += 1;
    }
    assert(a@ =~= address_at(src@, offset as int));
    a
}

impl Store {
    pub open spec fn spec_pack(self) -> Seq<u8> {
        record_bytes(
            self.is_initialized,
            self.price,
            self.owner_pubkey@,
            self.native_tokens_to_auto_sell_pubkey@,
            self.store_tokens_to_auto_buy_pubkey@,
        )
    }

    /// The record whose packed form is `src`, if there is one.
    pub open spec fn spec_unpack(src: Seq<u8>) -> Option<Store> {
        if valid_record_bytes(src) {
            Some(choose|s: Store| s.spec_pack() == src)
        } else {
            None
        }
    }

    /// Whether `s` holds the fields laid out in `src`: the flag at 0, the
    /// little-endian price at 1..9, the owner at 9..41, the quote-token
    /// account at 41..73 and the base-token account at 73..105.
    pub open spec fn fields_of(s: Store, src: Seq<u8>) -> bool {
        &&& s.is_initialized == (src[0] == 1)
        &&& s.price == spec_u64_from_le_bytes(src.subrange(1, 9))
        &&& s.owner_pubkey@ == address_at(src, 9)
        &&& s.native_tokens_to_auto_sell_pubkey@ == address_at(src, 41)
        &&& s.store_tokens_to_auto_buy_pubkey@ == address_at(src, 73)
    }

    /// Whether the record has been initialized.
    pub fn is_initialized(&self) -> (r: bool)
        ensures
            r == self.is_initialized,
    {
        self.is_initialized
    }

    /// Decodes the first `STORE_LEN` bytes of `src`; a flag byte other than
    /// 0 or 1 gives `LayoutError`.
    pub fn unpack_from_slice(src: &[u8]) -> (r: Result<Store, StoreError>)
        requires
            src@.len() >= STORE_LEN,
        ensures
            r == (match Self::spec_unpack(src@.subrange(0, STORE_LEN as int)) {
                Some(s) => Ok(s),
                None => Err(StoreError::LayoutError),
            }),
            r is Ok ==> Self::fields_of(r->Ok_0, src@),
    {
        let ghost head = src@.subrange(0, STORE_LEN as int);
        let flag = src[0];
        if flag > 1 {
            return Err(StoreError::LayoutError);
        }
        let price = u64_from_le_bytes(slice_subrange(src, 1, 9));
        let s = Store {
            is_initialized: flag == 1,
            price,
            owner_pubkey: read_address(src, 9),
            native_tokens_to_auto_sell_pubkey: read_address(src, 41),
            store_tokens_to_auto_buy_pubkey: read_address(src, 73),
        };
        proof {
            lemma_auto_spec_u64_to_from_le_bytes();
            assert(src@.subrange(1, 9) == head.subrange(1, 9));
            assert(head.subrange(1, 9) =~= spec_u64_to_le_bytes(price));
            assert(s.spec_pack() =~= head);
            lemma_pack_injective(s, choose|t: Store| t.spec_pack() == head);
        }
        Ok(s)
    }

    /// Decodes a packed record; a length other than `STORE_LEN` or a flag
    /// byte other than 0 or 1 gives `LayoutError`.
    pub fn unpack_unchecked(src: &[u8]) -> (r: Result<Store, StoreError>)
        ensures
            r == (match Self::spec_unpack(src@) {
                Some(s) => Ok(s),
                None => Err(StoreError::LayoutError),
            }),
            r is Ok ==> Self::fields_of(r->Ok_0, src@),
    {
        if src.len() != STORE_LEN {
            return Err(StoreError::LayoutError);
        }
        proof {
            assert(src@.subrange(0, STORE_LEN as int) =~= src@);
        }
        Self::unpack_from_slice(src)
    }

    /// The packed form of the record, `STORE_LEN` bytes long.
    pub fn pack_to_vec(&self) -> (v: Vec<u8>)
        ensures
            v@ == self.spec_pack(),
            v@.len() == STORE_LEN,
    {
        let mut v: Vec<u8> = Vec::with_capacity(STORE_LEN);
        v.push(if self.is_initialized { 1u8 } else { 0u8 });
        v.extend_from_slice(u64_to_le_bytes(self.price).as_slice());
        v.extend_from_slice(self.owner_pubkey.as_slice());
        v.extend_from_slice(self.native_tokens_to_auto_sell_pubkey.as_slice());
        v.extend_from_slice(self.store_tokens_to_auto_buy_pubkey.as_slice());
        proof {
            assert(v@ =~= self.spec_pack());
        }
        v
    }

    /// Writes the packed record over the first `STORE_LEN` bytes of `dst`.
    pub fn pack_into_slice(&self, dst: &mut [u8])
        requires
            old(dst)@.len() >= STORE_LEN,
        ensures
            final(dst)@ == self.spec_pack() + old(dst)@.subrange(
                STORE_LEN as int,
                old(dst)@.len() as int,
            ),
    {
        let bytes = self.pack_to_vec();
        let ghost start = dst@;
        let mut i: usize = 0;
        while i < STORE_LEN
            invariant
                0 <= i <= STORE_LEN,
                bytes@ == self.spec_pack(),
                bytes@.len() == STORE_LEN,
                dst@.len() == start.len(),
                start.len() >= STORE_LEN,
                forall|j: int| 0 <= j < i ==> dst@[j] == bytes@[j],
                forall|j: int| STORE_LEN <= j < start.len() ==> dst@[j] == start[j],
            decreases STORE_LEN - i,
        {
            dst[i] = bytes[i];
            i += 1;
        }
        assert(dst@ =~= self.spec_pack() + start.subrange(STORE_LEN as int, start.len() as int));
    }

    /// Writes the packed record into `dst`, which must be exactly
    /// `STORE_LEN` bytes long; otherwise `LayoutError` and `dst` is unchanged.
    pub fn pack(src: Store, dst: &mut [u8]) -> (r: Result<(), StoreError>)
        ensures
            old(dst)@.len() == STORE_LEN ==> r is Ok && final(dst)@ == src.spec_pack(),
            old(dst)@.len() != STORE_LEN ==> r == Err::<(), StoreError>(StoreError::LayoutError)
                && final(dst)@ == old(dst)@,
    {
        if dst.len() != STORE_LEN {
            return Err(StoreError::LayoutError);
        }
        src.pack_into_slice(dst);
        assert(dst@ =~= src.spec_pack());
        Ok(())
    }
}

/// Two records with the same packed form are the same record.
pub proof fn lemma_pack_injective(a: Store, b: Store)
    requires
        a.spec_pack() == b.spec_pack(),
    ensures
        a == b,
{
    lemma_auto_spec_u64_to_from_le_bytes();
    broadcast use vstd::array::group_array_axioms;
    let s = a.spec_pack();
    assert(s.subrange(1, 9) =~= spec_u64_to_le_bytes(a.price));
    assert(b.spec_pack().subrange(1, 9) =~= spec_u64_to_le_bytes(b.price));
    assert(s.subrange(9, 41) =~= a.owner_pubkey@);
    assert(b.spec_pack().subrange(9, 41) =~= b.owner_pubkey@);
    assert(s.subrange(41, 73) =~= a.native_tokens_to_auto_sell_pubkey@);
    assert(b.spec_pack().subrange(41, 73) =~= b.native_tokens_to_auto_sell_pubkey@);
    assert(s.subrange(73, 105) =~= a.store_tokens_to_auto_buy_pubkey@);
    assert(b.spec_pack().subrange(73, 105) =~= b.store_tokens_to_auto_buy_pubkey@);
    assert(a.price == b.price);
    assert(s[0] == b.spec_pack()[0]);
    assert(a.is_initialized == b.is_initialized);
    assert(a.owner_pubkey@ == b.owner_pubkey@);
    assert(a.owner_pubkey =~= b.owner_pubkey);
    assert(a.native_tokens_to_auto_sell_pubkey =~= b.native_tokens_to_auto_sell_pubkey);
    assert(a.store_tokens_to_auto_buy_pubkey =~= b.store_tokens_to_auto_buy_pubkey);
}

/// Unpacking a packed record gives back the same record, the all-zero
/// uninitialized record included.
pub proof fn lemma_record_round_trip(r: Store)
    ensures
        Store::spec_unpack(r.spec_pack()) == Some(r),
{
    broadcast use vstd::array::group_array_axioms;
    lemma_auto_spec_u64_to_from_le_bytes();
    let s = r.spec_pack();
    assert(valid_record_bytes(s));
    let t = choose|t: Store| t.spec_pack() == s;
    lemma_pack_injective(r, t);
}

} // verus!
