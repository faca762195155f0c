//! The envelope assembler and dispatcher.
//!
//! An envelope couples a 4-byte network magic with one typed message. On the
//! wire it is: magic (4 bytes, little-endian), command tag (12 bytes), then
//! the framed payload (4-byte length, 4-byte checksum, payload bytes). The
//! domain payloads carried by most message kinds are consensus-encoded by
//! their own codecs and are opaque to this layer: it stores and routes their
//! bytes. The `ping` and `pong` payloads are a single 8-byte little-endian
//! integer, which this layer encodes and decodes itself.
//!
//! The name table here is bidirectional and exactly inverse to itself: every
//! recognized wire name constructs the message kind of the same name — in
//! particular `"pong"` constructs [`NetworkMessage::Pong`] — and every kind
//! encodes under the name that constructs it.

use vstd::prelude::*;
use vstd::bytes::{spec_u32_to_le_bytes, spec_u32_from_le_bytes, u32_to_le_bytes, u32_from_le_bytes};
use vstd::bytes::{spec_u64_from_le_bytes, u64_to_le_bytes, u64_from_le_bytes};
use vstd::slice::{slice_subrange, slice_to_vec};
use vstd::string::StrSliceExecFns;
use crate::command::{CommandString, spec_command_tag, spec_tag_name, lemma_command_codec_round_trip};
use crate::error::DecodeError;
use crate::frame::{
    spec_checksum, spec_frame, spec_frame_fits, spec_frame_checksum_ok, spec_frame_payload,
    frame_payload, unframe_payload, copy_bytes,
};

verus! {

broadcast use vstd::string::group_string_axioms;

/// A message payload, one variant per supported kind.
///
/// The kinds whose domain payloads belong to other codecs (transactions,
/// blocks, addresses, inventories, handshake fields, block-range requests)
/// carry those payloads as their consensus-encoded bytes; this layer never
/// looks inside them. `Ping` and `Pong` carry their nonce directly.
#[derive(Clone, PartialEq, Eq, Debug)]
pub enum NetworkMessage {
    /// `version`: the version-handshake fields, consensus-encoded.
    Version(Vec<u8>),
    /// `verack`: no payload.
    Verack,
    /// `addr`: a list of timestamped network addresses, consensus-encoded.
    Addr(Vec<u8>),
    /// `inv`: an inventory announcement, consensus-encoded.
    Inv(Vec<u8>),
    /// `getdata`: an inventory request, consensus-encoded.
    GetData(Vec<u8>),
    /// `notfound`: an inventory not-found response, consensus-encoded.
    NotFound(Vec<u8>),
    /// `getblocks`: a block-range request, consensus-encoded.
    GetBlocks(Vec<u8>),
    /// `getheaders`: a header-range request, consensus-encoded.
    GetHeaders(Vec<u8>),
    /// `tx`: a transaction, consensus-encoded.
    Tx(Vec<u8>),
    /// `block`: a block, consensus-encoded.
    Block(Vec<u8>),
    /// `headers`: a list of block headers, consensus-encoded.
    Headers(Vec<u8>),
    /// `ping`: a nonce.
    Ping(u64),
    /// `pong`: a nonce.
    Pong(u64),
}

/// A full wire message: the network magic plus one payload.
#[derive(Debug)]
pub struct RawNetworkMessage {
    /// Magic bytes identifying the network these messages are meant for.
    pub magic: u32,
    /// The actual message data.
    pub payload: NetworkMessage,
}

/// The wire command name of each message kind.
pub open spec fn spec_command_name(m: NetworkMessage) -> Seq<char> {
    match m {
        NetworkMessage::Version(_) => "version"@,
        NetworkMessage::Verack => "verack"@,
        NetworkMessage::Addr(_) => "addr"@,
        NetworkMessage::Inv(_) => "inv"@,
        NetworkMessage::GetData(_) => "getdata"@,
        NetworkMessage::NotFound(_) => "notfound"@,
        NetworkMessage::GetBlocks(_) => "getblocks"@,
        NetworkMessage::GetHeaders(_) => "getheaders"@,
        NetworkMessage::Tx(_) => "tx"@,
        NetworkMessage::Block(_) => "block"@,
        NetworkMessage::Headers(_) => "headers"@,
        NetworkMessage::Ping(_) => "ping"@,
        NetworkMessage::Pong(_) => "pong"@,
    }
}

/// A well-formed command name: ASCII, between 1 and 12 characters, and free
/// of zero characters, so that its wire tag decodes back to it losslessly.
pub open spec fn spec_name_wf(name: Seq<char>) -> bool {
    &&& vstd::utf8::is_ascii_chars(name)
    &&& 1 <= name.len() <= 12
    &&& forall|i: int| 0 <= i < name.len() ==> name[i] != '\0'
}

/// Every built-in command name is well-formed.
pub proof fn lemma_command_name_wf(m: NetworkMessage)
    ensures
        spec_name_wf(spec_command_name(m)),
{
    reveal_strlit("version");
    reveal_strlit("verack");
    reveal_strlit("addr");
    reveal_strlit("inv");
    reveal_strlit("getdata");
    reveal_strlit("notfound");
    reveal_strlit("getblocks");
    reveal_strlit("getheaders");
    reveal_strlit("tx");
    reveal_strlit("block");
    reveal_strlit("headers");
    reveal_strlit("ping");
    reveal_strlit("pong");
}

/// The raw payload bytes each message kind frames onto the wire.
pub open spec fn spec_payload_bytes(m: NetworkMessage) -> Seq<u8> {
    match m {
        NetworkMessage::Version(b) => b@,
        NetworkMessage::Verack => Seq::<u8>::empty(),
        NetworkMessage::Addr(b) => b@,
        NetworkMessage::Inv(b) => b@,
        NetworkMessage::GetData(b) => b@,
        NetworkMessage::NotFound(b) => b@,
        NetworkMessage::GetBlocks(b) => b@,
        NetworkMessage::GetHeaders(b) => b@,
        NetworkMessage::Tx(b) => b@,
        NetworkMessage::Block(b) => b@,
        NetworkMessage::Headers(b) => b@,
        NetworkMessage::Ping(n) => vstd::bytes::spec_u64_to_le_bytes(n),
        NetworkMessage::Pong(n) => vstd::bytes::spec_u64_to_le_bytes(n),
    }
}

/// Whether a decoded command name stands in the dispatch table.
pub open spec fn spec_recognized(name: Seq<char>) -> bool {
    ||| name == "version"@
    ||| name == "verack"@
    ||| name == "addr"@
    ||| name == "inv"@
    ||| name == "getdata"@
    ||| name == "notfound"@
    ||| name == "getblocks"@
    ||| name == "getheaders"@
    ||| name == "tx"@
    ||| name == "block"@
    ||| name == "headers"@
    ||| name == "ping"@
    ||| name == "pong"@
}

/// Whether message `m` is what the dispatch table constructs for a frame
/// whose command name is `name` and whose raw payload bytes are `p`: the
/// name is exactly the one that encodes `m`'s kind, and `m` carries what the
/// kind's payload decoder reads from `p`. The byte-carrying kinds keep all
/// of `p`; `verack` carries nothing and ignores `p`; `ping` and `pong` read
/// their nonce from the first 8 bytes and ignore the rest.
pub open spec fn spec_payload_matches(m: NetworkMessage, name: Seq<char>, p: Seq<u8>) -> bool {
    &&& name == spec_command_name(m)
    &&& match m {
        NetworkMessage::Version(b) => b@ == p,
        NetworkMessage::Verack => true,
        NetworkMessage::Addr(b) => b@ == p,
        NetworkMessage::Inv(b) => b@ == p,
        NetworkMessage::GetData(b) => b@ == p,
        NetworkMessage::NotFound(b) => b@ == p,
        NetworkMessage::GetBlocks(b) => b@ == p,
        NetworkMessage::GetHeaders(b) => b@ == p,
        NetworkMessage::Tx(b) => b@ == p,
        NetworkMessage::Block(b) => b@ == p,
        NetworkMessage::Headers(b) => b@ == p,
        NetworkMessage::Ping(n) => p.len() >= 8 && n == spec_u64_from_le_bytes(p.take(8)),
        NetworkMessage::Pong(n) => p.len() >= 8 && n == spec_u64_from_le_bytes(p.take(8)),
    }
}

/// The full wire frame of an envelope.
pub open spec fn spec_encode_message(magic: u32, m: NetworkMessage) -> Seq<u8> {
    spec_u32_to_le_bytes(magic) + spec_command_tag(spec_command_name(m))
        + spec_frame(spec_payload_bytes(m))
}

/// The magic a wire frame carries.
pub open spec fn spec_frame_magic(d: Seq<u8>) -> u32 {
    spec_u32_from_le_bytes(d.take(4))
}

/// The command name a wire frame carries.
pub open spec fn spec_frame_name(d: Seq<u8>) -> Seq<char> {
    spec_tag_name(d.subrange(4, 16))
}

/// Whether two strings hold the same characters.
fn str_eq(a: &str, b: &str) -> (r: bool)
    ensures
        r == (a@ == b@),
{
    let n = a.unicode_len();
    let m = b.unicode_len();
    if n != m {
        return false;
    }
    let mut i: usize = 0;
    while i < n
        invariant
            i <= n,
            n == a@.len(),
            n == b@.len(),
            forall|j: int| 0 <= j < i ==> a@[j] == b@[j],
        decreases n - i,
    {
        if a.get_char(i) != b.get_char(i) {
            return false;
        }
        i += 1;
    }
    proof {
        assert(a@ =~= b@);
    }
    true
}

/// Reads the leading 8 bytes of a payload as a little-endian integer; fails
/// with `Truncated`, and only with it, exactly when fewer than 8 bytes are
/// given. Bytes past the first 8 are ignored.
fn parse_u64_payload(p: &Vec<u8>) -> (r: Result<u64, DecodeError>)
    ensures
        match r {
            Ok(v) => p@.len() >= 8 && v == spec_u64_from_le_bytes(p@.take(8)),
            Err(e) => p@.len() < 8 && (e is Truncated),
        },
{
    if p.len() < 8 {
        return Err(DecodeError::Truncated);
    }
    let v = u64_from_le_bytes(slice_subrange(p.as_slice(), 0, 8));
    proof {
        assert(p@.subrange(0, 8) =~= p@.take(8));
    }
    Ok(v)
}

impl RawNetworkMessage {
    /// The wire command name of this message's payload kind.
    pub fn command(&self) -> (r: String)
        ensures
            r@ == spec_command_name(self.payload),
    {
        match &self.payload {
            NetworkMessage::Version(_) => "version".to_owned(),
            NetworkMessage::Verack => "verack".to_owned(),
            NetworkMessage::Addr(_) => "addr".to_owned(),
            NetworkMessage::Inv(_) => "inv".to_owned(),
            NetworkMessage::GetData(_) => "getdata".to_owned(),
            NetworkMessage::NotFound(_) => "notfound".to_owned(),
            NetworkMessage::GetBlocks(_) => "getblocks".to_owned(),
            NetworkMessage::GetHeaders(_) => "getheaders".to_owned(),
            NetworkMessage::Tx(_) => "tx".to_owned(),
            NetworkMessage::Block(_) => "block".to_owned(),
            NetworkMessage::Headers(_) => "headers".to_owned(),
            NetworkMessage::Ping(_) => "ping".to_owned(),
            NetworkMessage::Pong(_) => "pong".to_owned(),
        }
    }

    /// The raw payload bytes this message frames onto the wire.
    fn payload_bytes(&self) -> (r: Vec<u8>)
        ensures
            r@ == spec_payload_bytes(self.payload),
    {
        match &self.payload {
            NetworkMessage::Version(b) => copy_bytes(b),
            NetworkMessage::Verack => Vec::new(),
            NetworkMessage::Addr(b) => copy_bytes(b),
            NetworkMessage::Inv(b) => copy_bytes(b),
            NetworkMessage::GetData(b) => copy_bytes(b),
            NetworkMessage::NotFound(b) => copy_bytes(b),
            NetworkMessage::GetBlocks(b) => copy_bytes(b),
            NetworkMessage::GetHeaders(b) => copy_bytes(b),
            NetworkMessage::Tx(b) => copy_bytes(b),
            NetworkMessage::Block(b) => copy_bytes(b),
            NetworkMessage::Headers(b) => copy_bytes(b),
            NetworkMessage::Ping(n) => u64_to_le_bytes(*n),
            NetworkMessage::Pong(n) => u64_to_le_bytes(*n),
        }
    }

    /// Encodes the envelope into its full wire frame: magic, command tag,
    /// then the framed payload. The payload must fit the 4-byte length
    /// field; every result is byte-exact and deterministic.
    pub fn consensus_encode(&self) -> (r: Vec<u8>)
        requires
            spec_payload_bytes(self.payload).len() <= u32::MAX,
        ensures
            r@ == spec_encode_message(self.magic, self.payload),
    {
        let mut r = u32_to_le_bytes(self.magic);
        let name = self.command();
        proof {
            lemma_command_name_wf(self.payload);
        }
        let cs = CommandString(name);
        let mut tag = cs.consensus_encode();
        r.append(&mut tag);
        let body = self.payload_bytes();
        let mut framed = frame_payload(&body);
        r.append(&mut framed);
        proof {
            assert(r@ =~= spec_encode_message(self.magic, self.payload));
        }
        r
    }

    /// Decodes a complete wire frame into an envelope.
    ///
    /// Reads the magic, then the command tag, then the framed payload, and
    /// routes the payload bytes to the decoder the dispatch table names.
    /// Every failure is a typed error, never a panic, on any input:
    /// `Truncated` exactly when the bytes end before a fixed-size field or
    /// before the announced payload does; `BadChecksum` exactly when the
    /// complete frame's checksum field disagrees with its payload;
    /// `UnrecognizedCommand`, carrying the decoded name, exactly when that
    /// name is not in the dispatch table; `PayloadDecode`, carrying the
    /// command name and the underlying cause, exactly when a recognized
    /// payload fails to decode — among the built-in kinds only `ping` and
    /// `pong` can so fail, on a payload shorter than 8 bytes. Trailing bytes
    /// after the frame are ignored.
    pub fn consensus_decode(data: &Vec<u8>) -> (r: Result<RawNetworkMessage, DecodeError>)
        ensures
            match r {
                Ok(msg) => {
                    &&& data@.len() >= 16
                    &&& spec_frame_fits(data@, 16)
                    &&& spec_frame_checksum_ok(data@, 16)
                    &&& spec_recognized(spec_frame_name(data@))
                    &&& msg.magic == spec_frame_magic(data@)
                    &&& spec_payload_matches(
                        msg.payload,
                        spec_frame_name(data@),
                        spec_frame_payload(data@, 16),
                    )
                },
                Err(e) => match e {
                    DecodeError::Truncated => data@.len() < 16 || !spec_frame_fits(data@, 16),
                    DecodeError::BadChecksum => {
                        &&& data@.len() >= 16
                        &&& spec_frame_fits(data@, 16)
                        &&& !spec_frame_checksum_ok(data@, 16)
                    },
                    DecodeError::UnrecognizedCommand(n) => {
                        &&& data@.len() >= 16
                        &&& spec_frame_fits(data@, 16)
                        &&& spec_frame_checksum_ok(data@, 16)
                        &&& !spec_recognized(spec_frame_name(data@))
                        &&& n@ == spec_frame_name(data@)
                    },
                    DecodeError::PayloadDecode { command, cause } => {
                        &&& data@.len() >= 16
                        &&& spec_frame_fits(data@, 16)
                        &&& spec_frame_checksum_ok(data@, 16)
                        &&& (spec_frame_name(data@) == "ping"@ || spec_frame_name(data@)
                            == "pong"@)
                        &&& spec_frame_payload(data@, 16).len() < 8
                        &&& command@ == spec_frame_name(data@)
                        &&& *cause is Truncated
                    },
                },
            },
    {
        if data.len() < 4 {
            return Err(DecodeError::Truncated);
        }
        let magic = u32_from_le_bytes(slice_subrange(data.as_slice(), 0, 4));
        proof {
            assert(data@.subrange(0, 4) =~= data@.take(4));
        }
        let tag_end: usize = if data.len() < 16 {
            data.len()
        } else {
            16
        };
        let tag_region = slice_to_vec(slice_subrange(data.as_slice(), 4, tag_end));
        let cs = match CommandString::consensus_decode(&tag_region) {
            Ok(cs) => cs,
            Err(e) => {
                return Err(e);
            },
        };
        proof {
            assert(tag_region@.take(12) =~= data@.subrange(4, 16));
        }
        let cmd: String = cs.0;
        let payload = match unframe_payload(data, 16) {
            Ok(p) => p,
            Err(e) => {
                return Err(e);
            },
        };
        let a: &str = cmd.as_str();
        let msg = if str_eq(a, "version") {
            NetworkMessage::Version(payload)
        } else if str_eq(a, "verack") {
            NetworkMessage::Verack
        } else if str_eq(a, "addr") {
            NetworkMessage::Addr(payload)
        } else if str_eq(a, "inv") {
            NetworkMessage::Inv(payload)
        } else if str_eq(a, "getdata") {
            NetworkMessage::GetData(payload)
        } else if str_eq(a, "notfound") {
            NetworkMessage::NotFound(payload)
        } else if str_eq(a, "getblocks") {
            NetworkMessage::GetBlocks(payload)
        } else if str_eq(a, "getheaders") {
            NetworkMessage::GetHeaders(payload)
        } else if str_eq(a, "block") {
            NetworkMessage::Block(payload)
        } else if str_eq(a, "headers") {
            NetworkMessage::Headers(payload)
        } else if str_eq(a, "ping") {
            match parse_u64_payload(&payload) {
                Ok(v) => NetworkMessage::Ping(v),
                Err(e) => {
                    return Err(DecodeError::PayloadDecode { command: cmd, cause: Box::new(e) });
                },
            }
        } else if str_eq(a, "pong") {
            match parse_u64_payload(&payload) {
                Ok(v) => NetworkMessage::Pong(v),
                Err(e) => {
                    return Err(DecodeError::PayloadDecode { command: cmd, cause: Box::new(e) });
                },
            }
        } else if str_eq(a, "tx") {
            NetworkMessage::Tx(payload)
        } else {
            return Err(DecodeError::UnrecognizedCommand(cmd));
        };
        Ok(RawNetworkMessage { magic, payload: msg })
    }
}

/// Whether two messages are wire-equivalent: the same kind, carrying equal
/// payload values. This is what equality of messages means observably; two
/// byte-carrying variants are equivalent exactly when their byte views are
/// equal.
pub open spec fn spec_message_equiv(m1: NetworkMessage, m2: NetworkMessage) -> bool {
    match (m1, m2) {
        (NetworkMessage::Version(a), NetworkMessage::Version(b)) => a@ == b@,
        (NetworkMessage::Verack, NetworkMessage::Verack) => true,
        (NetworkMessage::Addr(a), NetworkMessage::Addr(b)) => a@ == b@,
        (NetworkMessage::Inv(a), NetworkMessage::Inv(b)) => a@ == b@,
        (NetworkMessage::GetData(a), NetworkMessage::GetData(b)) => a@ == b@,
        (NetworkMessage::NotFound(a), NetworkMessage::NotFound(b)) => a@ == b@,
        (NetworkMessage::GetBlocks(a), NetworkMessage::GetBlocks(b)) => a@ == b@,
        (NetworkMessage::GetHeaders(a), NetworkMessage::GetHeaders(b)) => a@ == b@,
        (NetworkMessage::Tx(a), NetworkMessage::Tx(b)) => a@ == b@,
        (NetworkMessage::Block(a), NetworkMessage::Block(b)) => a@ == b@,
        (NetworkMessage::Headers(a), NetworkMessage::Headers(b)) => a@ == b@,
        (NetworkMessage::Ping(a), NetworkMessage::Ping(b)) => a == b,
        (NetworkMessage::Pong(a), NetworkMessage::Pong(b)) => a == b,
        _ => false,
    }
}

/// The name table is injective: a message's command name settles its kind.
proof fn lemma_name_settles_kind(m: NetworkMessage, name: Seq<char>)
    requires
        spec_command_name(m) == name,
    ensures
        (name == "version"@) == (m is Version),
        (name == "verack"@) == (m is Verack),
        (name == "addr"@) == (m is Addr),
        (name == "inv"@) == (m is Inv),
        (name == "getdata"@) == (m is GetData),
        (name == "notfound"@) == (m is NotFound),
        (name == "getblocks"@) == (m is GetBlocks),
        (name == "getheaders"@) == (m is GetHeaders),
        (name == "tx"@) == (m is Tx),
        (name == "block"@) == (m is Block),
        (name == "headers"@) == (m is Headers),
        (name == "ping"@) == (m is Ping),
        (name == "pong"@) == (m is Pong),
{
    reveal_strlit("version");
    reveal_strlit("verack");
    reveal_strlit("addr");
    reveal_strlit("inv");
    reveal_strlit("getdata");
    reveal_strlit("notfound");
    reveal_strlit("getblocks");
    reveal_strlit("getheaders");
    reveal_strlit("tx");
    reveal_strlit("block");
    reveal_strlit("headers");
    reveal_strlit("ping");
    reveal_strlit("pong");
    // Naming each literal's length, and a differing character for the names
    // of equal length, gives the prover the facts that tell them apart.
    assert("version"@.len() == 7);
    assert("verack"@.len() == 6);
    assert("addr"@.len() == 4);
    assert("inv"@.len() == 3);
    assert("getdata"@.len() == 7);
    assert("notfound"@.len() == 8);
    assert("getblocks"@.len() == 9);
    assert("getheaders"@.len() == 10);
    assert("tx"@.len() == 2);
    assert("block"@.len() == 5);
    assert("headers"@.len() == 7);
    assert("ping"@.len() == 4);
    assert("pong"@.len() == 4);
    assert("version"@[0] != "getdata"@[0]);
    assert("version"@[0] != "headers"@[0]);
    assert("getdata"@[0] != "headers"@[0]);
    assert("addr"@[0] != "ping"@[0]);
    assert("addr"@[0] != "pong"@[0]);
    assert("ping"@[1] != "pong"@[1]);
    // Case on the kind, so each equivalence is checked at a concrete name.
    match m {
        NetworkMessage::Version(_) => {},
        NetworkMessage::Verack => {},
        NetworkMessage::Addr(_) => {},
        NetworkMessage::Inv(_) => {},
        NetworkMessage::GetData(_) => {},
        NetworkMessage::NotFound(_) => {},
        NetworkMessage::GetBlocks(_) => {},
        NetworkMessage::GetHeaders(_) => {},
        NetworkMessage::Tx(_) => {},
        NetworkMessage::Block(_) => {},
        NetworkMessage::Headers(_) => {},
        NetworkMessage::Ping(_) => {},
        NetworkMessage::Pong(_) => {},
    }
}

/// Law: the dispatch table is injective. Two messages that both match the
/// same frame — the same command name and the same payload bytes — are
/// wire-equivalent. With the round-trip law this pins the decoder's result:
/// whatever decoding an encoded envelope returns is equivalent to what was
/// encoded.
pub proof fn lemma_dispatch_injective(
    m1: NetworkMessage,
    m2: NetworkMessage,
    name: Seq<char>,
    p: Seq<u8>,
)
    requires
        spec_payload_matches(m1, name, p),
        spec_payload_matches(m2, name, p),
    ensures
        spec_message_equiv(m1, m2),
{
    lemma_name_settles_kind(m1, name);
    lemma_name_settles_kind(m2, name);
}

/// Law: encode/decode round trip. The wire frame of any envelope is a
/// complete frame with a valid checksum that carries the envelope's magic
/// and a recognized command name, and the dispatch table maps that name and
/// the frame's payload bytes back to the message that was encoded.
/// Together with the decoder's contract: decoding an encoded envelope
/// returns `Ok`, with the same magic and an equal payload.
pub proof fn lemma_encode_decode_round_trip(magic: u32, m: NetworkMessage)
    requires
        spec_payload_bytes(m).len() <= u32::MAX,
    ensures
        ({
            let d = spec_encode_message(magic, m);
            &&& d.len() >= 16
            &&& spec_frame_fits(d, 16)
            &&& spec_frame_checksum_ok(d, 16)
            &&& spec_frame_magic(d) == magic
            &&& spec_frame_name(d) == spec_command_name(m)
            &&& spec_recognized(spec_frame_name(d))
            &&& spec_payload_matches(m, spec_frame_name(d), spec_frame_payload(d, 16))
        }),
{
    let d = spec_encode_message(magic, m);
    let name = spec_command_name(m);
    let p = spec_payload_bytes(m);
    let tag = spec_command_tag(name);
    let framed = spec_frame(p);
    vstd::bytes::lemma_auto_spec_u32_to_from_le_bytes();
    assert(d.len() == 4 + 12 + framed.len());
    assert(framed.len() == 4 + spec_checksum(p).len() + p.len());
    assert(d.take(4) =~= spec_u32_to_le_bytes(magic));
    assert(d.subrange(4, 16) =~= tag);
    lemma_command_name_wf(m);
    lemma_command_codec_round_trip(name);
    assert(spec_frame_name(d) == name);
    assert(d.subrange(16, 20) =~= spec_u32_to_le_bytes(p.len() as u32));
    assert(crate::frame::spec_frame_len(d, 16) == p.len());
    assert(spec_frame_fits(d, 16));
    assert(spec_frame_payload(d, 16) =~= p);
    assert(d.subrange(20, 24) =~= spec_checksum(p));
    assert(spec_frame_checksum_ok(d, 16));
    assert(spec_frame_magic(d) == magic);
    match m {
        NetworkMessage::Ping(n) => {
            vstd::bytes::lemma_auto_spec_u64_to_from_le_bytes();
            assert(p.take(8) =~= p);
        },
        NetworkMessage::Pong(n) => {
            vstd::bytes::lemma_auto_spec_u64_to_from_le_bytes();
            assert(p.take(8) =~= p);
        },
        _ => {},
    }
    assert(spec_payload_matches(m, name, p));
}

} // verus!

