//! Identifiers of the daemons on the bus, and their two byte forms: the
//! flat routing key and the tagged, length-prefixed serialization.

use crate::bytes::{append_slice, copy_range, slice_eq, u16_from_le, u16_le};
use crate::channel_id::ChannelId;
use internet2::addr::NodeAddr;
use std::str::FromStr;
use vstd::prelude::*;
use vstd::utf8::{decode_utf8, encode_utf8, valid_utf8};

verus! {

broadcast use {
    vstd::utf8::encode_utf8_valid_utf8,
    vstd::utf8::encode_utf8_decode_utf8,
    vstd::utf8::decode_utf8_encode_utf8,
    vstd::array::group_array_axioms,
};

/// Identifiers of daemons participating in the node.
#[derive(Clone, PartialEq, Eq, Hash, Debug)]
pub enum DaemonId {
    Loopback,
    Lnpd,
    Gossip,
    Routing,
    /// The connection daemon serving the remote node at this endpoint.
    Connection(String),
    /// The channel daemon known under this channel id.
    Channel(ChannelId),
    /// A client outside the node.
    Foreign(String),
}

/// Mathematical value of a [`DaemonId`].
pub enum Address {
    Loopback,
    Lnpd,
    Gossip,
    Routing,
    Connection(Seq<char>),
    Channel(Seq<u8>),
    Foreign(Seq<char>),
}

impl View for DaemonId {
    type V = Address;

    open spec fn view(&self) -> Address {
        match self {
            DaemonId::Loopback => Address::Loopback,
            DaemonId::Lnpd => Address::Lnpd,
            DaemonId::Gossip => Address::Gossip,
            DaemonId::Routing => Address::Routing,
            DaemonId::Connection(endpoint) => Address::Connection(endpoint@),
            DaemonId::Channel(id) => Address::Channel(id@),
            DaemonId::Foreign(name) => Address::Foreign(name@),
        }
    }
}

/// `loopback` in ASCII.
pub open spec fn loopback_name() -> Seq<u8> {
    seq![0x6cu8, 0x6f, 0x6f, 0x70, 0x62, 0x61, 0x63, 0x6b]
}

/// `lnpd` in ASCII.
pub open spec fn lnpd_name() -> Seq<u8> {
    seq![0x6cu8, 0x6e, 0x70, 0x64]
}

/// `gossipd` in ASCII.
pub open spec fn gossip_name() -> Seq<u8> {
    seq![0x67u8, 0x6f, 0x73, 0x73, 0x69, 0x70, 0x64]
}

/// `routed` in ASCII.
pub open spec fn routing_name() -> Seq<u8> {
    seq![0x72u8, 0x6f, 0x75, 0x74, 0x65, 0x64]
}

/// Whether the text that these bytes decode to, with each malformed UTF-8
/// sequence replaced by U+FFFD, is accepted as the address of a remote node
/// (`<node public key in hex>@<internet address>`).
pub uninterp spec fn node_endpoint_parses(bytes: Seq<u8>) -> bool;

/// The text that these bytes decode to, with each malformed UTF-8 sequence
/// replaced by U+FFFD.
pub uninterp spec fn utf8_lossy(bytes: Seq<u8>) -> Seq<char>;

/// Whether a flat key is the address of a remote node. The node key alone
/// takes 66 hexadecimal digits, so no key that short is one.
pub open spec fn is_node_endpoint(bytes: Seq<u8>) -> bool {
    bytes.len() > 66 && node_endpoint_parses(bytes)
}

/// The name that a flat key spells: the text itself where the key is
/// UTF-8, and its lossy decoding otherwise.
pub open spec fn lossy_text(bytes: Seq<u8>) -> Seq<char> {
    if valid_utf8(bytes) {
        decode_utf8(bytes)
    } else {
        utf8_lossy(bytes)
    }
}

/// Whether an address is well-formed: the id of a channel has 32 bytes.
pub open spec fn well_formed(a: Address) -> bool {
    a matches Address::Channel(id) ==> id.len() == 32
}

/// The flat routing key of an address.
pub open spec fn flat_bytes(a: Address) -> Seq<u8> {
    match a {
        Address::Loopback => loopback_name(),
        Address::Lnpd => lnpd_name(),
        Address::Gossip => gossip_name(),
        Address::Routing => routing_name(),
        Address::Connection(endpoint) => encode_utf8(endpoint),
        Address::Channel(id) => id,
        Address::Foreign(name) => encode_utf8(name),
    }
}

/// The address that a flat routing key stands for: a fixed name first, then
/// a node endpoint, then a 32-byte channel id, and a foreign name otherwise.
pub open spec fn parsed(bytes: Seq<u8>) -> Address {
    if bytes == loopback_name() {
        Address::Loopback
    } else if bytes == lnpd_name() {
        Address::Lnpd
    } else if bytes == gossip_name() {
        Address::Gossip
    } else if bytes == routing_name() {
        Address::Routing
    } else if is_node_endpoint(bytes) {
        Address::Connection(lossy_text(bytes))
    } else if bytes.len() == 32 {
        Address::Channel(bytes)
    } else {
        Address::Foreign(lossy_text(bytes))
    }
}

/// Calls `NodeAddr::from_str` of `internet2` on the lossy UTF-8 decoding of
/// `bytes` (`String::from_utf8_lossy`). The result is named, not stated. One
/// fact is taken from the parser: it reads the node key from 66 or 130
/// hexadecimal digits before the `@`, so it accepts nothing of 66 bytes or
/// fewer.
#[verifier::external_body]
fn endpoint_parses(bytes: &[u8]) -> (ok: bool)
    ensures
        ok == (bytes@.len() > 66 && node_endpoint_parses(bytes@)),
{
    NodeAddr::from_str(&String::from_utf8_lossy(bytes)).is_ok()
}

/// Calls `String::from_utf8_lossy` of std. For well-formed UTF-8 the result
/// is the text itself; for other bytes it is named, not stated.
#[verifier::external_body]
fn lossy_string(bytes: &[u8]) -> (text: String)
    ensures
        text@ == (if valid_utf8(bytes@) {
            decode_utf8(bytes@)
        } else {
            utf8_lossy(bytes@)
        }),
{
    String::from_utf8_lossy(bytes).into_owned()
}

/// Calls `String::from_utf8` of std: the text of well-formed UTF-8, and
/// nothing for any other bytes.
#[verifier::external_body]
fn string_from_utf8(bytes: Vec<u8>) -> (text: Option<String>)
    ensures
        text is Some <==> valid_utf8(bytes@),
        text matches Some(s) ==> s@ == decode_utf8(bytes@),
{
    String::from_utf8(bytes).ok()
}

fn loopback_bytes() -> (name: Vec<u8>)
    ensures
        name@ == loopback_name(),
{
    let name: Vec<u8> = vec![0x6cu8, 0x6f, 0x6f, 0x70, 0x62, 0x61, 0x63, 0x6b];
    assert(name@ =~= loopback_name());
    name
}

fn lnpd_bytes() -> (name: Vec<u8>)
    ensures
        name@ == lnpd_name(),
{
    let name: Vec<u8> = vec![0x6cu8, 0x6e, 0x70, 0x64];
    assert(name@ =~= lnpd_name());
    name
}

fn gossip_bytes() -> (name: Vec<u8>)
    ensures
        name@ == gossip_name(),
{
    let name: Vec<u8> = vec![0x67u8, 0x6f, 0x73, 0x73, 0x69, 0x70, 0x64];
    assert(name@ =~= gossip_name());
    name
}

fn routing_bytes() -> (name: Vec<u8>)
    ensures
        name@ == routing_name(),
{
    let name: Vec<u8> = vec![0x72u8, 0x6f, 0x75, 0x74, 0x65, 0x64];
    assert(name@ =~= routing_name());
    name
}

impl DaemonId {
    /// The daemon that routes the bus: the supervisor.
    pub fn router() -> (id: DaemonId)
        ensures
            id@ == Address::Lnpd,
    {
        DaemonId::Lnpd
    }

    /// The serialization tag of a fixed daemon; 7 for the others.
    fn fixed_tag(&self) -> (tag: u8)
        ensures
            tag == (match self@ {
                Address::Loopback => 0u8,
                Address::Lnpd => 1u8,
                Address::Gossip => 2u8,
                Address::Routing => 3u8,
                _ => 7u8,
            }),
    {
        match self {
            DaemonId::Loopback => 0,
            DaemonId::Lnpd => 1,
            DaemonId::Gossip => 2,
            DaemonId::Routing => 3,
            _ => 7,
        }
    }

    /// A copy of this identifier.
    pub fn duplicate(&self) -> (copy: DaemonId)
        ensures
            copy@ == self@,
    {
        match self {
            DaemonId::Loopback => DaemonId::Loopback,
            DaemonId::Lnpd => DaemonId::Lnpd,
            DaemonId::Gossip => DaemonId::Gossip,
            DaemonId::Routing => DaemonId::Routing,
            DaemonId::Connection(endpoint) => DaemonId::Connection(endpoint.clone()),
            DaemonId::Channel(id) => DaemonId::Channel(*id),
            DaemonId::Foreign(name) => DaemonId::Foreign(name.clone()),
        }
    }

    /// Whether two identifiers name the same daemon.
    pub fn same(&self, other: &DaemonId) -> (equal: bool)
        ensures
            equal == (self@ == other@),
    {
        match self {
            DaemonId::Connection(a) => match other {
                DaemonId::Connection(b) => *a == *b,
                _ => false,
            },
            DaemonId::Channel(a) => match other {
                DaemonId::Channel(b) => slice_eq(a.0.as_slice(), b.0.as_slice()),
                _ => false,
            },
            DaemonId::Foreign(a) => match other {
                DaemonId::Foreign(b) => *a == *b,
                _ => false,
            },
            _ => self.fixed_tag() == other.fixed_tag(),
        }
    }

    /// The flat routing key: the raw channel id of a channel daemon, the
    /// UTF-8 name of any other.
    pub fn as_bytes(&self) -> (key: Vec<u8>)
        ensures
            key@ == flat_bytes(self@),
    {
        match self {
            DaemonId::Loopback => loopback_bytes(),
            DaemonId::Lnpd => lnpd_bytes(),
            DaemonId::Gossip => gossip_bytes(),
            DaemonId::Routing => routing_bytes(),
            DaemonId::Connection(endpoint) => {
                let text = endpoint.as_str().as_bytes();
                copy_range(text, 0, text.len())
            },
            DaemonId::Channel(id) => {
                let raw = id.0.as_slice();
                copy_range(raw, 0, raw.len())
            },
            DaemonId::Foreign(name) => {
                let text = name.as_str().as_bytes();
                copy_range(text, 0, text.len())
            },
        }
    }

    /// Reads a flat routing key back.
    pub fn from_bytes(key: Vec<u8>) -> (id: DaemonId)
        ensures
            id@ == parsed(key@),
    {
        let v = key.as_slice();
        if slice_eq(v, loopback_bytes().as_slice()) {
            DaemonId::Loopback
        } else if slice_eq(v, lnpd_bytes().as_slice()) {
            DaemonId::Lnpd
        } else if slice_eq(v, gossip_bytes().as_slice()) {
            DaemonId::Gossip
        } else if slice_eq(v, routing_bytes().as_slice()) {
            DaemonId::Routing
        } else if endpoint_parses(v) {
            DaemonId::Connection(lossy_string(v))
        } else if let Some(id) = DaemonId::from_bytes_32(&key) {
            DaemonId::Channel(id)
        } else {
            DaemonId::Foreign(lossy_string(v))
        }
    }
}


/// Why an address could not be serialized.
#[derive(Clone, Copy, PartialEq, Eq, Debug)]
pub enum EncodeError {
    /// The payload has this many bytes, more than a 16-bit length can count.
    ExceedMaxItems(usize),
}

/// Why bytes could not be read as an address.
#[derive(Clone, Copy, PartialEq, Eq, Debug)]
pub enum DecodeError {
    /// The bytes end before the value does.
    UnexpectedEof,
    /// The tag byte names no variant.
    EnumValueNotKnown(u8),
    /// The payload of a name is not UTF-8.
    InvalidUtf8,
    /// The payload of a channel id has this length, not 32.
    InvalidChannelId(u16),
}

/// A payload behind its length, written as 16 bits, low byte first.
pub open spec fn prefixed(payload: Seq<u8>) -> Seq<u8> {
    u16_le(payload.len() as u16) + payload
}

/// The payload of a parameterized address, and nothing for a fixed one.
pub open spec fn payload_of(a: Address) -> Option<Seq<u8>> {
    match a {
        Address::Connection(endpoint) => Some(encode_utf8(endpoint)),
        Address::Channel(id) => Some(id),
        Address::Foreign(name) => Some(encode_utf8(name)),
        _ => None,
    }
}

/// The tag byte of an address.
pub open spec fn tag_of(a: Address) -> u8 {
    match a {
        Address::Loopback => 0,
        Address::Lnpd => 1,
        Address::Gossip => 2,
        Address::Routing => 3,
        Address::Connection(_) => 4,
        Address::Channel(_) => 5,
        Address::Foreign(_) => 6,
    }
}

/// Whether the payload of an address fits behind a 16-bit length.
pub open spec fn encodable(a: Address) -> bool {
    payload_of(a) matches Some(payload) ==> payload.len() <= 0xFFFF
}

/// The serialization of an address: its tag, then its payload, if it has
/// one, behind its length.
pub open spec fn encoded(a: Address) -> Seq<u8> {
    match payload_of(a) {
        Some(payload) => seq![tag_of(a)] + prefixed(payload),
        None => seq![tag_of(a)],
    }
}

/// The payload that starts at the second byte of `bytes`, if all of it is
/// there.
pub open spec fn payload_at(bytes: Seq<u8>) -> Option<Seq<u8>> {
    if bytes.len() < 3 {
        None
    } else {
        let len = u16_from_le(bytes[1], bytes[2]) as int;
        if bytes.len() < 3 + len {
            None
        } else {
            Some(bytes.subrange(3, 3 + len))
        }
    }
}

/// What reading an address from the front of `bytes` gives: the address
/// and the number of bytes it took, or the reason why none is there.
pub open spec fn decoded(bytes: Seq<u8>) -> Result<(Address, nat), DecodeError> {
    if bytes.len() == 0 {
        Err(DecodeError::UnexpectedEof)
    } else if bytes[0] == 0 {
        Ok((Address::Loopback, 1))
    } else if bytes[0] == 1 {
        Ok((Address::Lnpd, 1))
    } else if bytes[0] == 2 {
        Ok((Address::Gossip, 1))
    } else if bytes[0] == 3 {
        Ok((Address::Routing, 1))
    } else if bytes[0] > 6 {
        Err(DecodeError::EnumValueNotKnown(bytes[0]))
    } else {
        match payload_at(bytes) {
            None => Err(DecodeError::UnexpectedEof),
            Some(payload) => if bytes[0] == 5 {
                if payload.len() == 32 {
                    Ok((Address::Channel(payload), 35))
                } else {
                    Err(DecodeError::InvalidChannelId(payload.len() as u16))
                }
            } else if !valid_utf8(payload) {
                Err(DecodeError::InvalidUtf8)
            } else if bytes[0] == 4 {
                Ok((Address::Connection(decode_utf8(payload)), 3 + payload.len()))
            } else {
                Ok((Address::Foreign(decode_utf8(payload)), 3 + payload.len()))
            },
        }
    }
}

/// Appends a payload behind its length.
fn encode_payload(e: &mut Vec<u8>, tag: u8, payload: &[u8]) -> (written: Result<usize, EncodeError>)
    ensures
        payload@.len() <= 0xFFFF ==> written == Ok::<usize, EncodeError>(
            (3 + payload@.len()) as usize,
        ) && final(e)@ == old(e)@ + (seq![tag] + prefixed(payload@)),
        payload@.len() > 0xFFFF ==> written == Err::<usize, EncodeError>(
            EncodeError::ExceedMaxItems(payload@.len() as usize),
        ) && final(e)@ == old(e)@,
{
    let len = payload.len();
    if len > 0xFFFF {
        return Err(EncodeError::ExceedMaxItems(len));
    }
    e.push(tag);
    e.push((len % 256) as u8);
    e.push((len / 256) as u8);
    append_slice(e, payload);
    assert(e@ =~= old(e)@ + (seq![tag] + prefixed(payload@)));
    Ok(3 + len)
}

impl DaemonId {
    /// Appends the serialization of this identifier to `e` and returns the
    /// number of bytes written. Nothing is written if the payload is too long.
    pub fn strict_encode(&self, e: &mut Vec<u8>) -> (written: Result<usize, EncodeError>)
        ensures
            encodable(self@) ==> written == Ok::<usize, EncodeError>(
                encoded(self@).len() as usize,
            ) && final(e)@ == old(e)@ + encoded(self@),
            !encodable(self@) ==> final(e)@ == old(e)@ && written == Err::<usize, EncodeError>(
                EncodeError::ExceedMaxItems(payload_of(self@).unwrap().len() as usize),
            ),
    {
        match self {
            DaemonId::Connection(endpoint) => encode_payload(e, 4, endpoint.as_str().as_bytes()),
            DaemonId::Channel(id) => encode_payload(e, 5, id.0.as_slice()),
            DaemonId::Foreign(name) => encode_payload(e, 6, name.as_str().as_bytes()),
            _ => {
                e.push(self.fixed_tag());
                assert(e@ =~= old(e)@ + encoded(self@));
                Ok(1)
            },
        }
    }

    /// Reads one identifier from the front of `d` and returns it with the
    /// number of bytes it took.
    pub fn strict_decode(d: &[u8]) -> (read: Result<(DaemonId, usize), DecodeError>)
        ensures
            match (read, decoded(d@)) {
                (Ok((id, taken)), Ok((a, n))) => id@ == a && taken == n,
                (Err(e), Err(f)) => e == f,
                _ => false,
            },
    {
        if d.len() == 0 {
            return Err(DecodeError::UnexpectedEof);
        }
        let ty = d[0];
        if ty == 0 {
            return Ok((DaemonId::Loopback, 1));
        } else if ty == 1 {
            return Ok((DaemonId::Lnpd, 1));
        } else if ty == 2 {
            return Ok((DaemonId::Gossip, 1));
        } else if ty == 3 {
            return Ok((DaemonId::Routing, 1));
        } else if ty > 6 {
            return Err(DecodeError::EnumValueNotKnown(ty));
        }
        if d.len() < 3 {
            return Err(DecodeError::UnexpectedEof);
        }
        let len: usize = d[1] as usize + 256 * (d[2] as usize);
        if d.len() - 3 < len {
            return Err(DecodeError::UnexpectedEof);
        }
        let payload = copy_range(d, 3, 3 + len);
        if ty == 5 {
            let id = DaemonId::from_bytes_32(&payload);
            match id {
                Some(id) => Ok((DaemonId::Channel(id), 35)),
                None => Err(DecodeError::InvalidChannelId(len as u16)),
            }
        } else {
            match string_from_utf8(payload) {
                None => Err(DecodeError::InvalidUtf8),
                Some(text) => if ty == 4 {
                    Ok((DaemonId::Connection(text), 3 + len))
                } else {
                    Ok((DaemonId::Foreign(text), 3 + len))
                },
            }
        }
    }

    /// The channel id that exactly 32 bytes spell.
    fn from_bytes_32(v: &Vec<u8>) -> (id: Option<ChannelId>)
        ensures
            id is Some <==> v@.len() == 32,
            id matches Some(c) ==> c@ == v@,
    {
        if v.len() != 32 {
            return None;
        }
        let mut hash = [0u8; 32];
        let mut i: usize = 0;
        while i < 32
            invariant
                i <= 32,
                v@.len() == 32,
                forall|j: int| 0 <= j < i ==> hash@[j] == v@[j],
            decreases 32 - i,
        {
            hash[i] = v[i];
            i += 1;
        }
        assert(hash@ =~= v@);
        Some(ChannelId(hash))
    }
}

/// Reading a serialized address back gives the address, whatever bytes
/// follow it.
pub proof fn lemma_decode_encoded(a: Address, rest: Seq<u8>)
    requires
        well_formed(a),
        encodable(a),
    ensures
        decoded(encoded(a) + rest) == Ok::<(Address, nat), DecodeError>((a, encoded(a).len())),
{
    let bytes = encoded(a) + rest;
    match payload_of(a) {
        None => {},
        Some(payload) => {
            let n = payload.len() as u16;
            assert(bytes[0] == tag_of(a));
            assert(bytes[1] == u16_le(n)[0]);
            assert(bytes[2] == u16_le(n)[1]);
            assert(u16_from_le(bytes[1], bytes[2]) == n);
            assert(bytes.subrange(3, 3 + n as int) =~= payload);
        },
    }
}

/// The flat key of a fixed daemon, or of a channel daemon, reads back as
/// that daemon.
pub proof fn lemma_parse_flat_fixed_or_channel(a: Address)
    requires
        well_formed(a),
        a is Loopback || a is Lnpd || a is Gossip || a is Routing || a is Channel,
    ensures
        parsed(flat_bytes(a)) == a,
{
    assert(loopback_name().len() == 8);
    assert(lnpd_name().len() == 4);
    assert(gossip_name().len() == 7);
    assert(routing_name().len() == 6);
}

/// The flat key of a connection daemon reads back as that daemon exactly
/// when its endpoint is accepted as a node endpoint.
pub proof fn lemma_parse_flat_connection(endpoint: Seq<char>)
    ensures
        parsed(flat_bytes(Address::Connection(endpoint))) == Address::Connection(endpoint)
            <==> is_node_endpoint(encode_utf8(endpoint)),
{
    let bytes = encode_utf8(endpoint);
    assert(loopback_name().len() == 8);
    assert(lnpd_name().len() == 4);
    assert(gossip_name().len() == 7);
    assert(routing_name().len() == 6);
}

} // verus!
