//! The DNS header codec: a pure, bit-exact decoder for the fixed
//! 12-octet preamble of a DNS message, as laid out by RFC 1035.

use vstd::prelude::*;

verus! {

/// The kind of query carried by a DNS message, a 4-bit field.
/// Values 0 through 5 are assigned; every other value decodes to the
/// explicit catch-all `UNKNOWN`, never to an invalid state.
#[derive(Debug, Copy, Clone, PartialEq, Eq, Structural)]
pub enum DNSOpcode {
    QUERY,
    IQUERY,
    STATUS,
    UNASSIGNED,
    NOTIFY,
    UPDATE,
    UNKNOWN,
}

impl DNSOpcode {
    /// The total mapping from a raw numeric code to an opcode variant.
    pub open spec fn spec_from_u8(input: u8) -> DNSOpcode {
        match input {
            0 => DNSOpcode::QUERY,
            1 => DNSOpcode::IQUERY,
            2 => DNSOpcode::STATUS,
            3 => DNSOpcode::UNASSIGNED,
            4 => DNSOpcode::NOTIFY,
            5 => DNSOpcode::UPDATE,
            _ => DNSOpcode::UNKNOWN,
        }
    }

    /// Decode a raw numeric opcode. Total: unassigned values yield
    /// `UNKNOWN` rather than failing.
    pub fn from_u8(input: u8) -> (r: DNSOpcode)
        ensures
            r == DNSOpcode::spec_from_u8(input),
    {
        match input {
            0 => DNSOpcode::QUERY,
            1 => DNSOpcode::IQUERY,
            2 => DNSOpcode::STATUS,
            3 => DNSOpcode::UNASSIGNED,
            4 => DNSOpcode::NOTIFY,
            5 => DNSOpcode::UPDATE,
            _ => DNSOpcode::UNKNOWN,
        }
    }
}

/// The outcome of a DNS query, a 4-bit field (RCODE). Values 0
/// through 5 are assigned; every other value decodes to the explicit
/// catch-all `UNKNOWN`, never to an invalid state.
#[derive(Debug, Copy, Clone, PartialEq, Eq, Structural)]
pub enum DNSResponseCode {
    NOERR,
    FORMAT_ERROR,
    SERV_FAIL,
    NAME_ERROR,
    NOT_IMPLEMENTED,
    REFUSED,
    UNKNOWN,
}

impl DNSResponseCode {
    /// The total mapping from a raw numeric code to a response-code
    /// variant.
    pub open spec fn spec_from_u8(input: u8) -> DNSResponseCode {
        match input {
            0 => DNSResponseCode::NOERR,
            1 => DNSResponseCode::FORMAT_ERROR,
            2 => DNSResponseCode::SERV_FAIL,
            3 => DNSResponseCode::NAME_ERROR,
            4 => DNSResponseCode::NOT_IMPLEMENTED,
            5 => DNSResponseCode::REFUSED,
            _ => DNSResponseCode::UNKNOWN,
        }
    }

    /// Decode a raw numeric response code. Total: unassigned values
    /// yield `UNKNOWN` rather than failing.
    pub fn from_u8(input: u8) -> (r: DNSResponseCode)
        ensures
            r == DNSResponseCode::spec_from_u8(input),
    {
        match input {
            0 => DNSResponseCode::NOERR,
            1 => DNSResponseCode::FORMAT_ERROR,
            2 => DNSResponseCode::SERV_FAIL,
            3 => DNSResponseCode::NAME_ERROR,
            4 => DNSResponseCode::NOT_IMPLEMENTED,
            5 => DNSResponseCode::REFUSED,
            _ => DNSResponseCode::UNKNOWN,
        }
    }
}

/// The opcode mapping is closed over the assigned values and open
/// elsewhere: a 4-bit value decodes to the catch-all `UNKNOWN` exactly
/// when it lies outside the assigned range 0-5.
pub proof fn lemma_opcode_closed_open(v: u8)
    ensures
        DNSOpcode::spec_from_u8(v) == DNSOpcode::UNKNOWN <==> v >= 6,
{
}

/// The response-code mapping is closed over the assigned values and
/// open elsewhere: a 4-bit value decodes to the catch-all `UNKNOWN`
/// exactly when it lies outside the assigned range 0-5.
pub proof fn lemma_response_code_closed_open(v: u8)
    ensures
        DNSResponseCode::spec_from_u8(v) == DNSResponseCode::UNKNOWN <==> v >= 6,
{
}

/// Why a datagram's bytes could not be decoded into a header.
#[derive(Debug, Copy, Clone, PartialEq, Eq, Structural)]
pub enum DecodeError {
    /// Fewer than the 12 octets of a complete header were available.
    TruncatedHeader,
}

/// The big-endian 16-bit unsigned integer held by two consecutive
/// octets.
pub open spec fn be16(hi: u8, lo: u8) -> u16 {
    ((hi as u16) << 8) | (lo as u16)
}

/// `be16` reads its octets in base 256, high octet first.
pub proof fn lemma_be16_is_base_256(hi: u8, lo: u8)
    ensures
        be16(hi, lo) == 256 * (hi as int) + (lo as int),
{
    assert(((hi as u16) << 8) | (lo as u16) == 256 * (hi as int) + (lo as int)) by (bit_vector);
}

/// Whether bit `i` (counting from the least significant, 0) of octet
/// `b` is set.
pub open spec fn bit_set(b: u8, i: u8) -> bool {
    (b >> i) & 1 == 1
}

/// The fixed 12-octet preamble of every DNS message, decoded into its
/// fields. A value type: once decoded it holds no reference to the
/// source buffer.
#[derive(Debug, Copy, Clone, PartialEq, Eq, Structural)]
pub struct DNSHeader {
    /// Transaction identifier, copied verbatim from request to response.
    pub id: u16,
    /// True for a query (QR bit 0), false for a response (QR bit 1):
    /// the logical negation of the raw QR bit.
    pub is_request: bool,
    /// The kind of query, from bits 6-3 of the first flags octet.
    pub opcode: DNSOpcode,
    /// Authoritative-answer flag.
    pub authoritative: bool,
    /// The message was truncated over the transport.
    pub truncated: bool,
    /// The client requests recursive resolution.
    pub recursion_desired: bool,
    /// The server supports recursion.
    pub recursion_available: bool,
    /// The outcome of the query, from bits 3-0 of the second flags octet.
    pub response_code: DNSResponseCode,
    /// Count of entries in the question section.
    pub question_count: u16,
    /// Count of entries in the answer section.
    pub answer_count: u16,
    /// Count of entries in the authority section.
    pub nameserver_count: u16,
    /// Count of entries in the additional section.
    pub additional_records_count: u16,
}

/// The header that the first 12 octets of `bytes` hold, field by field:
/// `id` big-endian from octets 0-1; the QR bit, opcode and three flags
/// from octet 2; the recursion-available bit and response code from
/// octet 3 (bits 6-4 are reserved and ignored); four big-endian counts
/// from octets 4-11.
pub open spec fn spec_header_of(bytes: Seq<u8>) -> DNSHeader
    recommends
        bytes.len() >= 12,
{
    DNSHeader {
        id: be16(bytes[0], bytes[1]),
        is_request: !bit_set(bytes[2], 7),
        opcode: DNSOpcode::spec_from_u8((bytes[2] >> 3) & 0xF),
        authoritative: bit_set(bytes[2], 2),
        truncated: bit_set(bytes[2], 1),
        recursion_desired: bit_set(bytes[2], 0),
        recursion_available: bit_set(bytes[3], 7),
        response_code: DNSResponseCode::spec_from_u8(bytes[3] & 0xF),
        question_count: be16(bytes[4], bytes[5]),
        answer_count: be16(bytes[6], bytes[7]),
        nameserver_count: be16(bytes[8], bytes[9]),
        additional_records_count: be16(bytes[10], bytes[11]),
    }
}

/// Round trip on the transaction identifier: writing any `id`
/// big-endian into octets 0-1 and decoding recovers `id` exactly.
pub proof fn lemma_id_round_trip(id: u16, bytes: Seq<u8>)
    requires
        bytes.len() >= 12,
        bytes[0] == (id >> 8) as u8,
        bytes[1] == (id as u8),
    ensures
        spec_header_of(bytes).id == id,
{
    assert(((((id >> 8) as u8) as u16) << 8) | ((id as u8) as u16) == id) by (bit_vector);
}

/// QR-bit inversion: a header whose octet 2 has bit 7 set is a
/// response and decodes to `is_request == false`; one with bit 7 clear
/// is a query and decodes to `is_request == true`.
pub proof fn lemma_qr_inversion(bytes: Seq<u8>)
    requires
        bytes.len() >= 12,
    ensures
        bit_set(bytes[2], 7) ==> !spec_header_of(bytes).is_request,
        !bit_set(bytes[2], 7) ==> spec_header_of(bytes).is_request,
{
}

/// Every section count decodes to the exact value its two octets hold
/// in base 256, high octet first: no silent overflow or truncation.
pub proof fn lemma_counts_exact(bytes: Seq<u8>)
    requires
        bytes.len() >= 12,
    ensures
        spec_header_of(bytes).question_count == 256 * (bytes[4] as int) + (bytes[5] as int),
        spec_header_of(bytes).answer_count == 256 * (bytes[6] as int) + (bytes[7] as int),
        spec_header_of(bytes).nameserver_count == 256 * (bytes[8] as int) + (bytes[9] as int),
        spec_header_of(bytes).additional_records_count == 256 * (bytes[10] as int) + (bytes[11] as int),
{
    lemma_be16_is_base_256(bytes[4], bytes[5]);
    lemma_be16_is_base_256(bytes[6], bytes[7]);
    lemma_be16_is_base_256(bytes[8], bytes[9]);
    lemma_be16_is_base_256(bytes[10], bytes[11]);
}

impl DNSHeader {
    /// Decode the raw payload of one received datagram.
    ///
    /// An input of at least 12 octets decodes to exactly the header its
    /// first 12 octets hold; a shorter input is rejected with
    /// `TruncatedHeader` rather than read out of bounds. Pure: no I/O,
    /// no state across calls.
    pub fn decode(input: &[u8]) -> (r: Result<DNSHeader, DecodeError>)
        ensures
            input@.len() >= 12 ==> r == Ok::<DNSHeader, DecodeError>(spec_header_of(input@)),
            input@.len() < 12 ==> r == Err::<DNSHeader, DecodeError>(DecodeError::TruncatedHeader),
    {
        if input.len() < 12 {
            return Err(DecodeError::TruncatedHeader);
        }
        let id: u16 = ((input[0] as u16) << 8) | (input[1] as u16);
        let flags1: u8 = input[2];
        let flags2: u8 = input[3];
        let header = DNSHeader {
            id,
            is_request: !((flags1 >> 7) & 1 == 1),
            opcode: DNSOpcode::from_u8((flags1 >> 3) & 0xF),
            authoritative: (flags1 >> 2) & 1 == 1,
            truncated: (flags1 >> 1) & 1 == 1,
            recursion_desired: (flags1 >> 0) & 1 == 1,
            recursion_available: (flags2 >> 7) & 1 == 1,
            response_code: DNSResponseCode::from_u8(flags2 & 0xF),
            question_count: ((input[4] as u16) << 8) | (input[5] as u16),
            answer_count: ((input[6] as u16) << 8) | (input[7] as u16),
            nameserver_count: ((input[8] as u16) << 8) | (input[9] as u16),
            additional_records_count: ((input[10] as u16) << 8) | (input[11] as u16),
        };
        Ok(header)
    }
}

} // verus!
