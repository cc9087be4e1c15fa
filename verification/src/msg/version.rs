//! The version handshake message: the first payload exchanged when two peers
//! connect, advertising protocol version, capabilities, and endpoints.

use crate::encoding::literal::{
    encode_literals, lemma_literals_bytes_one, lemma_literals_bytes_three, spec_byte_len_u64,
    spec_i32_bits, var_uint_bytes, EncodeLiteralType,
};
use crate::encoding::net_address::{
    encode_net_address, net_address_bytes, writes_timestamp, NetAddressEncodeError,
};
use crate::protocol::flags::ServiceFlag;
use crate::protocol::msg::{
    BtcMessage, BtcMessageDecodeError, BtcMessageEncodeError, BtcMessageEncodingType,
};
use crate::protocol::net_address::{IpAddr, NetAddress};
use crate::protocol::version::BIP_0037_VERSION;
use vstd::bytes::{spec_u32_to_le_bytes, spec_u64_to_le_bytes};
use vstd::prelude::*;
use vstd::string::StringExecFns;
use vstd::utf8::encode_utf8;

verus! {

/// The maximum byte length of the user-agent string.
pub const MAX_USER_AGENT_LEN: usize = 256;

/// The version handshake payload. `disable_relay_tx` is inverted on the
/// wire: the trailing boolean, when present, means "do relay".
#[derive(Debug)]
pub struct MsgVersion {
    pub protocol_version: i32,
    pub services: ServiceFlag,
    pub timestamp: i64,
    pub addr_you: NetAddress,
    pub addr_me: NetAddress,
    pub nonce: u64,
    pub user_agent: String,
    pub last_seen_block: i32,
    pub disable_relay_tx: bool,
}

/// The byte length of the user agent, as `str::len` reports it.
pub open spec fn user_agent_byte_len(user_agent: Seq<char>) -> u64 {
    spec_byte_len_u64(encode_utf8(user_agent))
}

/// The character of one decimal digit.
pub open spec fn dec_digit(d: u64) -> Seq<char> {
    if d == 0 {
        "0"@
    } else if d == 1 {
        "1"@
    } else if d == 2 {
        "2"@
    } else if d == 3 {
        "3"@
    } else if d == 4 {
        "4"@
    } else if d == 5 {
        "5"@
    } else if d == 6 {
        "6"@
    } else if d == 7 {
        "7"@
    } else if d == 8 {
        "8"@
    } else {
        "9"@
    }
}

/// The decimal digits of `v`, most significant first, with no leading zeros.
pub open spec fn dec_chars(v: u64) -> Seq<char>
    decreases v,
{
    if v < 10 {
        dec_digit(v)
    } else {
        dec_chars(v / 10) + dec_digit(v % 10)
    }
}

/// The reason reported for a user agent of `len` bytes exceeding the limit.
pub open spec fn user_agent_reason(len: u64) -> Seq<char> {
    "user agent is too long: len="@ + dec_chars(len) + ", max=256"@
}

fn dec_digit_str(d: u64) -> (r: &'static str)
    requires
        d < 10,
    ensures
        r@ == dec_digit(d),
{
    if d == 0 {
        "0"
    } else if d == 1 {
        "1"
    } else if d == 2 {
        "2"
    } else if d == 3 {
        "3"
    } else if d == 4 {
        "4"
    } else if d == 5 {
        "5"
    } else if d == 6 {
        "6"
    } else if d == 7 {
        "7"
    } else if d == 8 {
        "8"
    } else {
        "9"
    }
}

fn push_decimal(s: &mut String, v: u64)
    ensures
        final(s)@ == old(s)@ + dec_chars(v),
    decreases v,
{
    if v >= 10 {
        push_decimal(s, v / 10);
    }
    s.append(dec_digit_str(v % 10));
    assert(s@ =~= old(s)@ + dec_chars(v));
}

/// Prefixes this message's name to an inner field name, giving the dotted
/// context trail reported for a nested codec failure.
fn tag_field(field: &str) -> (r: String)
    ensures
        r@ == "MsgVersion."@ + field@,
{
    let mut context = String::from_str("MsgVersion.");
    context.append(field);
    context
}

/// The dotted context of a nested last-seen-timestamp failure, spelled out.
proof fn lemma_dotted_timestamp_context()
    ensures
        "MsgVersion."@ + "last_seen_timestamp"@ == "MsgVersion.last_seen_timestamp"@,
{
    reveal_strlit("MsgVersion.");
    reveal_strlit("last_seen_timestamp");
    reveal_strlit("MsgVersion.last_seen_timestamp");
    assert("MsgVersion."@ + "last_seen_timestamp"@ =~= "MsgVersion.last_seen_timestamp"@);
}

/// Whether encoding `m` under `protocol_version` succeeds: the user agent
/// fits the limit and every timestamp written lies at or after the epoch.
pub open spec fn msg_version_encode_ok(m: MsgVersion, protocol_version: u32) -> bool {
    &&& user_agent_byte_len(m.user_agent@) <= MAX_USER_AGENT_LEN
    &&& m.timestamp >= 0
    &&& (writes_timestamp(protocol_version, true) ==> m.addr_you.last_seen_timestamp >= 0
        && m.addr_me.last_seen_timestamp >= 0)
}

/// The message's leading fixed fields: protocol version, service mask, and
/// timestamp, each little-endian.
pub open spec fn msg_version_prefix_bytes(m: MsgVersion) -> Seq<u8> {
    spec_u32_to_le_bytes(spec_i32_bits(m.protocol_version)) + spec_u64_to_le_bytes(m.services.0)
        + spec_u64_to_le_bytes(m.timestamp as u64)
}

/// The full payload of the version message under `protocol_version`: the
/// leading fixed fields, both endpoint records (timestamps included when the
/// version allows), the nonce, the length-prefixed user agent, the last seen
/// block, and, at or above the relay threshold, one boolean equal to the
/// negation of `disable_relay_tx`. Meaningful only when encoding succeeds.
pub open spec fn msg_version_bytes(m: MsgVersion, protocol_version: u32) -> Seq<u8> {
    msg_version_prefix_bytes(m) + net_address_bytes(m.addr_you, protocol_version, true)
        + net_address_bytes(m.addr_me, protocol_version, true) + spec_u64_to_le_bytes(m.nonce)
        + var_uint_bytes(user_agent_byte_len(m.user_agent@)) + encode_utf8(m.user_agent@)
        + spec_u32_to_le_bytes(spec_i32_bits(m.last_seen_block)) + (if protocol_version
        >= BIP_0037_VERSION {
        seq![if m.disable_relay_tx { 0u8 } else { 1u8 }]
    } else {
        Seq::<u8>::empty()
    })
}

/// Encoding is deterministic: whether encoding succeeds, and the payload
/// bytes it appends when it does, are functions of the message value and
/// the negotiated protocol version alone. So two `encode` calls on the same
/// message with the same parameters agree on success, and into fresh sinks
/// they yield byte-identical output.
pub proof fn lemma_encode_deterministic(
    first: MsgVersion,
    second: MsgVersion,
    protocol_version: u32,
)
    requires
        first == second,
    ensures
        msg_version_encode_ok(first, protocol_version) == msg_version_encode_ok(
            second,
            protocol_version,
        ),
        msg_version_bytes(first, protocol_version) == msg_version_bytes(second, protocol_version),
{
}

impl MsgVersion {
    /// A default handshake message: version 70015, no services, epoch
    /// timestamp, unspecified endpoints, empty user agent, relaying enabled.
    pub fn new() -> (r: MsgVersion)
        ensures
            r.protocol_version == 70015,
            r.services.0 == 0,
            r.timestamp == 0,
            r.addr_you.last_seen_timestamp == 0,
            r.addr_you.services.0 == 0,
            r.addr_you.ip == IpAddr::V4([0u8, 0u8, 0u8, 0u8]),
            r.addr_you.port == 0,
            r.addr_me.last_seen_timestamp == 0,
            r.addr_me.services.0 == 0,
            r.addr_me.ip == IpAddr::V4([0u8, 0u8, 0u8, 0u8]),
            r.addr_me.port == 0,
            r.nonce == 0,
            r.user_agent@ == Seq::<char>::empty(),
            r.last_seen_block == 0,
            r.disable_relay_tx == false,
    {
        MsgVersion {
            protocol_version: 70015,
            services: ServiceFlag(0),
            timestamp: 0,
            addr_you: NetAddress::new(),
            addr_me: NetAddress::new(),
            nonce: 0,
            user_agent: String::new(),
            last_seen_block: 0,
            disable_relay_tx: false,
        }
    }

    /// True iff every bit of `flag` is set in the advertised services.
    pub fn has_service(&self, flag: ServiceFlag) -> (r: bool)
        ensures
            r == (self.services.0 & flag.0 == flag.0),
    {
        self.services.has_service(flag)
    }

    /// OR the bits of `flag` into the advertised services; all other fields
    /// are left unchanged.
    pub fn add_service(&mut self, flag: ServiceFlag)
        ensures
            final(self).services.0 == old(self).services.0 | flag.0,
            *final(self) == (MsgVersion {
                services: ServiceFlag(old(self).services.0 | flag.0),
                ..*old(self)
            }),
    {
        self.services.add_service(flag);
    }

    /// True iff the user agent's byte length is within the wire limit.
    pub fn validate_user_agent(user_agent: &str) -> (r: bool)
        ensures
            r == (user_agent_byte_len(user_agent@) <= MAX_USER_AGENT_LEN),
    {
        user_agent.len() <= MAX_USER_AGENT_LEN
    }
}

impl BtcMessage for MsgVersion {
    /// Encodes the handshake payload. The user agent is validated before any
    /// byte is written; an oversized one yields `InvalidData`. A pre-epoch
    /// timestamp — the message's own or an endpoint's — always yields
    /// `InvalidTimestampError`, never a generic encoding error. An
    /// endpoint's error keeps its kind and cause and is re-tagged with this
    /// message's name prefixed to the inner field name, giving callers a
    /// dotted context trail. On failure the sink holds exactly the fields
    /// encoded before the failing one; callers must discard it.
    #[verifier::rlimit(60)]
    fn encode(
        &self,
        writer: &mut Vec<u8>,
        protocol_version: u32,
        encoding: BtcMessageEncodingType,
    ) -> (r: Result<(), BtcMessageEncodeError>)
        ensures
            r is Ok <==> msg_version_encode_ok(*self, protocol_version),
            r is Ok ==> final(writer)@ == old(writer)@ + msg_version_bytes(
                *self,
                protocol_version,
            ),
            user_agent_byte_len(self.user_agent@) > MAX_USER_AGENT_LEN ==> (r matches Err(
                BtcMessageEncodeError::InvalidData(context, reason),
            ) && context@ == "MsgVersion"@ && reason@ == user_agent_reason(
                user_agent_byte_len(self.user_agent@),
            ) && final(writer)@ == old(writer)@),
            !(r is Ok) && user_agent_byte_len(self.user_agent@) <= MAX_USER_AGENT_LEN ==> (
            r matches Err(BtcMessageEncodeError::InvalidTimestampError(_, _))),
            user_agent_byte_len(self.user_agent@) <= MAX_USER_AGENT_LEN && self.timestamp < 0
                ==> (r matches Err(BtcMessageEncodeError::InvalidTimestampError(context, cause))
                && context@ == "MsgVersion"@ && cause@
                == "the timestamp precedes the reference epoch"@ && final(writer)@ == old(
                writer,
            )@),
            user_agent_byte_len(self.user_agent@) <= MAX_USER_AGENT_LEN && self.timestamp >= 0
                && writes_timestamp(protocol_version, true)
                && self.addr_you.last_seen_timestamp < 0 ==> (r matches Err(
                BtcMessageEncodeError::InvalidTimestampError(context, cause),
            ) && context@ == "MsgVersion.last_seen_timestamp"@ && cause@
                == "the last-seen time precedes the reference epoch"@ && final(writer)@ == old(
                writer,
            )@ + msg_version_prefix_bytes(*self)),
            user_agent_byte_len(self.user_agent@) <= MAX_USER_AGENT_LEN && self.timestamp >= 0
                && writes_timestamp(protocol_version, true)
                && self.addr_you.last_seen_timestamp >= 0
                && self.addr_me.last_seen_timestamp < 0 ==> (r matches Err(
                BtcMessageEncodeError::InvalidTimestampError(context, cause),
            ) && context@ == "MsgVersion.last_seen_timestamp"@ && cause@
                == "the last-seen time precedes the reference epoch"@ && final(writer)@ == old(
                writer,
            )@ + msg_version_prefix_bytes(*self) + net_address_bytes(
                self.addr_you,
                protocol_version,
                true,
            )),
    {
        if !MsgVersion::validate_user_agent(self.user_agent.as_str()) {
            let mut reason = String::from_str("user agent is too long: len=");
            push_decimal(&mut reason, self.user_agent.as_str().len() as u64);
            reason.append(", max=256");
            assert(reason@ =~= user_agent_reason(user_agent_byte_len(self.user_agent@)));
            return Err(
                BtcMessageEncodeError::InvalidData(String::from_str("MsgVersion"), reason),
            );
        }
        if self.timestamp < 0 {
            return Err(
                BtcMessageEncodeError::InvalidTimestampError(
                    String::from_str("MsgVersion"),
                    String::from_str("the timestamp precedes the reference epoch"),
                ),
            );
        }
        let ghost head_first = EncodeLiteralType::I32(self.protocol_version);
        let ghost head_second = EncodeLiteralType::U64(self.services.0);
        let ghost head_third = EncodeLiteralType::U64(self.timestamp as u64);
        let head = vec![
            EncodeLiteralType::I32(self.protocol_version),
            EncodeLiteralType::U64(self.services.0),
            EncodeLiteralType::U64(self.timestamp as u64),
        ];
        proof {
            assert(head@ =~= seq![head_first, head_second, head_third]);
            lemma_literals_bytes_three(head_first, head_second, head_third);
        }
        match encode_literals(writer, head) {
            Ok(()) => {},
            Err(error) => {
                return Err(
                    BtcMessageEncodeError::EncodingError(String::from_str("MsgVersion"), error),
                );
            },
        }
        assert(writer@ =~= old(writer)@ + msg_version_prefix_bytes(*self));
        match encode_net_address(writer, &self.addr_you, protocol_version, true) {
            Ok(()) => {},
            Err(NetAddressEncodeError::InvalidTimestampError(field, cause)) => {
                let context = tag_field(field.as_str());
                proof {
                    lemma_dotted_timestamp_context();
                }
                return Err(BtcMessageEncodeError::InvalidTimestampError(context, cause));
            },
            Err(NetAddressEncodeError::EncodingError(field, cause)) => {
                return Err(
                    BtcMessageEncodeError::EncodingError(tag_field(field.as_str()), cause),
                );
            },
        }
        let ghost after_addr_you = old(writer)@ + msg_version_prefix_bytes(*self)
            + net_address_bytes(self.addr_you, protocol_version, true);
        assert(writer@ =~= after_addr_you);
        match encode_net_address(writer, &self.addr_me, protocol_version, true) {
            Ok(()) => {},
            Err(NetAddressEncodeError::InvalidTimestampError(field, cause)) => {
                let context = tag_field(field.as_str());
                proof {
                    lemma_dotted_timestamp_context();
                }
                return Err(BtcMessageEncodeError::InvalidTimestampError(context, cause));
            },
            Err(NetAddressEncodeError::EncodingError(field, cause)) => {
                return Err(
                    BtcMessageEncodeError::EncodingError(tag_field(field.as_str()), cause),
                );
            },
        }
        let ghost after_addr_me = after_addr_you + net_address_bytes(
            self.addr_me,
            protocol_version,
            true,
        );
        assert(writer@ =~= after_addr_me);
        let ghost tail_first = EncodeLiteralType::U64(self.nonce);
        let ghost tail_second = EncodeLiteralType::String(self.user_agent);
        let ghost tail_third = EncodeLiteralType::I32(self.last_seen_block);
        let tail = vec![
            EncodeLiteralType::U64(self.nonce),
            EncodeLiteralType::String(self.user_agent.clone()),
            EncodeLiteralType::I32(self.last_seen_block),
        ];
        proof {
            assert(tail@ =~= seq![tail_first, tail_second, tail_third]);
            lemma_literals_bytes_three(tail_first, tail_second, tail_third);
        }
        match encode_literals(writer, tail) {
            Ok(()) => {},
            Err(error) => {
                return Err(
                    BtcMessageEncodeError::EncodingError(String::from_str("MsgVersion"), error),
                );
            },
        }
        let ghost after_tail = after_addr_me + spec_u64_to_le_bytes(self.nonce) + var_uint_bytes(
            user_agent_byte_len(self.user_agent@),
        ) + encode_utf8(self.user_agent@) + spec_u32_to_le_bytes(
            spec_i32_bits(self.last_seen_block),
        );
        assert(writer@ =~= after_tail);
        if protocol_version >= BIP_0037_VERSION {
            let ghost relay = EncodeLiteralType::Bool(!self.disable_relay_tx);
            let relay_values = vec![EncodeLiteralType::Bool(!self.disable_relay_tx)];
            proof {
                assert(relay_values@ =~= seq![relay]);
                lemma_literals_bytes_one(relay);
            }
            match encode_literals(writer, relay_values) {
                Ok(()) => {},
                Err(error) => {
                    return Err(
                        BtcMessageEncodeError::EncodingError(
                            String::from_str("MsgVersion"),
                            error,
                        ),
                    );
                },
            }
        }
        assert(writer@ =~= old(writer)@ + msg_version_bytes(*self, protocol_version));
        Ok(())
    }

    /// Decoding the handshake payload is future work: the stub accepts any
    /// input and reads nothing.
    fn decode(
        &self,
        reader: &[u8],
        protocol_version: u32,
        encoding: BtcMessageEncodingType,
    ) -> (r: Result<(), BtcMessageDecodeError>)
        ensures
            r is Ok,
    {
        Ok(())
    }
}

} // verus!
