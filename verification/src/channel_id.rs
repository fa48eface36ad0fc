//! Channel identifiers and the funding outpoint they are derived from.

use vstd::prelude::*;

verus! {

/// Reference to one output of a transaction: the funding output of a channel.
#[derive(Clone, Copy, PartialEq, Eq, Debug, Hash)]
pub struct OutPoint {
    /// Transaction id, in the byte order in which it is hashed.
    pub txid: [u8; 32],
    /// Index of the output within the transaction.
    pub vout: u32,
}

/// Identifier a channel is known by before its funding outpoint exists.
#[derive(Clone, Copy, PartialEq, Eq, Debug, Hash)]
pub struct TempChannelId(pub [u8; 32]);

/// Identifier of a funded channel.
#[derive(Clone, Copy, PartialEq, Eq, Debug, Hash)]
pub struct ChannelId(pub [u8; 32]);

/// The 32 zero bytes that stand for "no channel id yet".
pub open spec fn zero_id() -> Seq<u8> {
    Seq::new(32, |i: int| 0u8)
}

/// The four bytes of `n`, most significant first.
pub open spec fn u32_be(n: u32) -> Seq<u8> {
    seq![
        (n / 0x100_0000) as u8,
        ((n / 0x1_0000) % 256) as u8,
        ((n / 0x100) % 256) as u8,
        (n % 256) as u8,
    ]
}

/// The identifier derived from a funding outpoint: the transaction id with
/// its last two bytes XORed with the last two bytes of the output index,
/// written most significant byte first.
pub open spec fn derived_id(txid: Seq<u8>, vout: u32) -> Seq<u8> {
    txid.update(30, txid[30] ^ u32_be(vout)[2]).update(31, txid[31] ^ u32_be(vout)[3])
}

impl View for TempChannelId {
    type V = Seq<u8>;

    open spec fn view(&self) -> Seq<u8> {
        self.0@
    }
}

impl View for ChannelId {
    type V = Seq<u8>;

    open spec fn view(&self) -> Seq<u8> {
        self.0@
    }
}

impl TempChannelId {
    /// The identifier as its 32 bytes.
    pub fn to_bytes(&self) -> (bytes: [u8; 32])
        ensures
            bytes@ == self@,
    {
        self.0
    }
}

impl ChannelId {
    /// The all-zero identifier a channel carries until it is funded.
    pub fn zero() -> (id: ChannelId)
        ensures
            id@ == zero_id(),
    {
        let id = ChannelId([0u8; 32]);
        assert(id@ =~= zero_id());
        id
    }

    /// Whether this is the all-zero identifier.
    pub fn is_zero(&self) -> (zero: bool)
        ensures
            zero == (self@ == zero_id()),
    {
        let mut i: usize = 0;
        while i < 32
            invariant
                i <= 32,
                forall|j: int| 0 <= j < i ==> self.0@[j] == 0u8,
            decreases 32 - i,
        {
            if self.0[i] != 0 {
                assert(zero_id()[i as int] == 0u8);
                return false;
            }
            i += 1;
        }
        assert(self@ =~= zero_id());
        true
    }

    /// Derives the channel identifier from the funding outpoint.
    pub fn with(funding_outpoint: OutPoint) -> (id: ChannelId)
        ensures
            id@ == derived_id(funding_outpoint.txid@, funding_outpoint.vout),
            id@.len() == 32,
            forall|i: int| 0 <= i < 30 ==> id@[i] == funding_outpoint.txid@[i],
    {
        let mut bytes = funding_outpoint.txid;
        let vout = funding_outpoint.vout;
        let hi: u8 = ((vout / 256) % 256) as u8;
        let lo: u8 = (vout % 256) as u8;
        let b30 = bytes[30] ^ hi;
        let b31 = bytes[31] ^ lo;
        bytes[30] = b30;
        bytes[31] = b31;
        let id = ChannelId(bytes);
        assert(id@ =~= derived_id(funding_outpoint.txid@, funding_outpoint.vout));
        id
    }

    /// The identifier as its 32 bytes.
    pub fn to_bytes(&self) -> (bytes: [u8; 32])
        ensures
            bytes@ == self@,
    {
        self.0
    }
}

impl From<TempChannelId> for ChannelId {
    fn from(temp: TempChannelId) -> (id: ChannelId)
    {
        ChannelId(temp.0)
    }
}

impl vstd::std_specs::convert::FromSpecImpl<TempChannelId> for ChannelId {
    open spec fn obeys_from_spec() -> bool {
        true
    }

    open spec fn from_spec(temp: TempChannelId) -> ChannelId {
        ChannelId(temp.0)
    }
}

} // verus!
